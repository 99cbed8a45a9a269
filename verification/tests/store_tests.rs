use tourism_catalog::errors::ApiError;
use tourism_catalog::kuliner::Kuliner;
use tourism_catalog::kuliner::KulinerPayload;
use tourism_catalog::news::news_store;
use tourism_catalog::news::NewsItem;
use tourism_catalog::news::NewsPayload;
use tourism_catalog::store::affected_rows_outcome;
use tourism_catalog::store::found_outcome;
use tourism_catalog::store::ResourceStore;
use tourism_catalog::tempat_nongkrong::TempatNongkrongPayload;
use tourism_catalog::wisata_alam::WisataSql;
use tourism_catalog::wisata_alam::WisataResponseModel;

fn kuliner_payload(name: &str, htm: i32) -> KulinerPayload {
    KulinerPayload {
        nama_tempat: name.to_string(),
        kategori: "warung".to_string(),
        alamat: "Jl. Raya 1".to_string(),
        htm,
        link_gmaps: "https://maps.example/k".to_string(),
        link_foto: "https://img.example/k.jpg".to_string(),
    }
}

fn news_payload(title: &str) -> NewsPayload {
    NewsPayload {
        title: title.to_string(),
        category: "local".to_string(),
        image_url: "https://img.example/n.jpg".to_string(),
        content: "body".to_string(),
        date: "2024-01-01".to_string(),
        read_minutes: 3,
    }
}

#[test]
fn create_returns_submitted_fields_and_get_returns_identical_record() {
    let mut store: ResourceStore<KulinerPayload> = ResourceStore::new();
    let created = store.create(kuliner_payload("Bakso Pak Min", 15000)).unwrap();
    assert_eq!(created.id, 1);
    assert_eq!(created.fields.nama_tempat, "Bakso Pak Min");
    assert_eq!(created.fields.kategori, "warung");
    assert_eq!(created.fields.alamat, "Jl. Raya 1");
    assert_eq!(created.fields.htm, 15000);
    assert_eq!(created.fields.link_gmaps, "https://maps.example/k");
    assert_eq!(created.fields.link_foto, "https://img.example/k.jpg");

    let fetched = store.get(created.id).unwrap();
    assert_eq!(fetched.id, created.id);
    assert_eq!(fetched.fields.nama_tempat, created.fields.nama_tempat);
    assert_eq!(fetched.fields.kategori, created.fields.kategori);
    assert_eq!(fetched.fields.alamat, created.fields.alamat);
    assert_eq!(fetched.fields.htm, created.fields.htm);
    assert_eq!(fetched.fields.link_gmaps, created.fields.link_gmaps);
    assert_eq!(fetched.fields.link_foto, created.fields.link_foto);
}

#[test]
fn list_is_ascending_by_id_and_idempotent() {
    let mut store: ResourceStore<TempatNongkrongPayload> = ResourceStore::new();
    for name in ["Kopi Satu", "Kopi Dua", "Kopi Tiga"] {
        let payload = TempatNongkrongPayload {
            nama_tempat: name.to_string(),
            kategori: "cafe".to_string(),
            alamat: "Jl. Kenangan 2".to_string(),
            jam_buka: "08:00".to_string(),
            jam_tutup: "22:00".to_string(),
            htm: 0,
            link_gmaps: "https://maps.example/t".to_string(),
            link_foto: "https://img.example/t.jpg".to_string(),
        };
        store.create(payload).unwrap();
    }
    let first = store.list();
    let ids: Vec<i32> = first.iter().map(|r| r.id).collect();
    assert_eq!(ids, vec![1, 2, 3]);
    let names: Vec<&str> = first.iter().map(|r| r.fields.nama_tempat.as_str()).collect();
    assert_eq!(names, vec!["Kopi Satu", "Kopi Dua", "Kopi Tiga"]);

    let again = store.list();
    let ids_again: Vec<i32> = again.iter().map(|r| r.id).collect();
    assert_eq!(ids, ids_again);
}

#[test]
fn list_of_empty_store_is_empty() {
    let store: ResourceStore<NewsPayload> = news_store();
    assert!(store.list().is_empty());
}

#[test]
fn news_scenario_lists_newest_first() {
    let mut store = news_store();
    let a = store.create(news_payload("A")).unwrap();
    assert_eq!(a.id, 1);
    let b = store.create(news_payload("B")).unwrap();
    assert_eq!(b.id, 2);

    let listed = store.list();
    assert_eq!(listed.len(), 2);
    assert_eq!(listed[0].id, 2);
    assert_eq!(listed[0].fields.title, "B");
    assert_eq!(listed[1].id, 1);
    assert_eq!(listed[1].fields.title, "A");
}

#[test]
fn update_nonexistent_id_fails_not_found_and_creates_nothing() {
    let mut store: ResourceStore<KulinerPayload> = ResourceStore::new();
    store.create(kuliner_payload("Sate Lilit", 20000)).unwrap();

    let outcome = store.update(99, kuliner_payload("Phantom", 1));
    assert_eq!(outcome, Err(ApiError::NotFound));

    let listed = store.list();
    assert_eq!(listed.len(), 1);
    assert_eq!(listed[0].fields.nama_tempat, "Sate Lilit");
    assert!(matches!(store.get(99), Err(ApiError::NotFound)));
}

#[test]
fn update_replaces_every_field_in_place() {
    let mut store: ResourceStore<KulinerPayload> = ResourceStore::new();
    store.create(kuliner_payload("Nasi Goreng", 12000)).unwrap();
    store.create(kuliner_payload("Gado Gado", 10000)).unwrap();

    let replacement = KulinerPayload {
        nama_tempat: "Nasi Goreng Spesial".to_string(),
        kategori: "restoran".to_string(),
        alamat: "Jl. Baru 5".to_string(),
        htm: 18000,
        link_gmaps: "https://maps.example/new".to_string(),
        link_foto: "https://img.example/new.jpg".to_string(),
    };
    assert_eq!(store.update(1, replacement), Ok(()));

    let fetched = store.get(1).unwrap();
    assert_eq!(fetched.id, 1);
    assert_eq!(fetched.fields.nama_tempat, "Nasi Goreng Spesial");
    assert_eq!(fetched.fields.kategori, "restoran");
    assert_eq!(fetched.fields.alamat, "Jl. Baru 5");
    assert_eq!(fetched.fields.htm, 18000);

    let untouched = store.get(2).unwrap();
    assert_eq!(untouched.fields.nama_tempat, "Gado Gado");
    assert_eq!(store.list().len(), 2);
}

#[test]
fn delete_then_get_fails_not_found_and_second_delete_too() {
    let mut store: ResourceStore<KulinerPayload> = ResourceStore::new();
    store.create(kuliner_payload("Es Teler", 8000)).unwrap();

    assert_eq!(store.delete(1), Ok(()));
    assert!(matches!(store.get(1), Err(ApiError::NotFound)));
    assert_eq!(store.delete(1), Err(ApiError::NotFound));
    assert!(store.list().is_empty());
}

#[test]
fn created_ids_stay_unique_after_delete() {
    let mut store: ResourceStore<KulinerPayload> = ResourceStore::new();
    store.create(kuliner_payload("Satu", 1000)).unwrap();
    store.create(kuliner_payload("Dua", 2000)).unwrap();
    assert_eq!(store.delete(2), Ok(()));
    let third = store.create(kuliner_payload("Tiga", 3000)).unwrap();
    assert_eq!(third.id, 3);
    let ids: Vec<i32> = store.list().iter().map(|r| r.id).collect();
    assert_eq!(ids, vec![1, 3]);
}

#[test]
fn affected_rows_zero_is_not_found_and_positive_is_success() {
    assert_eq!(affected_rows_outcome(0), Err(ApiError::NotFound));
    assert_eq!(affected_rows_outcome(1), Ok(()));
    assert_eq!(affected_rows_outcome(7), Ok(()));
}

#[test]
fn found_outcome_distinguishes_absent_from_present() {
    assert_eq!(found_outcome::<i32>(None), Err(ApiError::NotFound));
    assert_eq!(found_outcome(Some(41)), Ok(41));
}

#[test]
fn flat_record_conversions_keep_every_field() {
    let mut kuliner_store: ResourceStore<KulinerPayload> = ResourceStore::new();
    let stored = kuliner_store.create(kuliner_payload("Mie Ayam", 9000)).unwrap();
    let flat: Kuliner = Kuliner::from_stored(stored);
    assert_eq!(flat.id, 1);
    assert_eq!(flat.nama_tempat, "Mie Ayam");
    assert_eq!(flat.htm, 9000);

    let mut news = news_store();
    let stored_news = news.create(news_payload("Festival")).unwrap();
    let item: NewsItem = NewsItem::from_stored(stored_news);
    assert_eq!(item.id, 1);
    assert_eq!(item.title, "Festival");
    assert_eq!(item.read_minutes, 3);

    let mut wisata: ResourceStore<WisataSql> = ResourceStore::new();
    let stored_wisata = wisata
        .create(WisataSql {
            name: "Air Terjun".to_string(),
            category: "alam".to_string(),
            address: "Desa Hijau".to_string(),
            open: "07:00".to_string(),
            close: "17:00".to_string(),
            htm: 5000,
            gmaps: "https://maps.example/w".to_string(),
            pictures: "https://img.example/w.jpg".to_string(),
        })
        .unwrap();
    let model: WisataResponseModel = WisataResponseModel::from_stored(stored_wisata);
    assert_eq!(model.id, 1);
    assert_eq!(model.nama_tempat, "Air Terjun");
    assert_eq!(model.kategori, "alam");
    assert_eq!(model.alamat, "Desa Hijau");
    assert_eq!(model.jam_buka, "07:00");
    assert_eq!(model.jam_tutup, "17:00");
    assert_eq!(model.htm, 5000);
    assert_eq!(model.link_gmaps, "https://maps.example/w");
    assert_eq!(model.link_foto, "https://img.example/w.jpg");
}
