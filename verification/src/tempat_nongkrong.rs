//! The hangout-spot catalog resource.

use vstd::prelude::*;

use crate::store::Fields;
use crate::store::Stored;

verus! {

/// A hangout spot as persisted: store-assigned identifier plus fields.
pub struct TempatNongkrong {
    pub id: i32,
    pub nama_tempat: String,
    pub kategori: String,
    pub alamat: String,
    pub jam_buka: String,
    pub jam_tutup: String,
    pub htm: i32,
    pub link_gmaps: String,
    pub link_foto: String,
}

/// The submitted fields of a hangout spot; every field is required.
pub struct TempatNongkrongPayload {
    pub nama_tempat: String,
    pub kategori: String,
    pub alamat: String,
    pub jam_buka: String,
    pub jam_tutup: String,
    pub htm: i32,
    pub link_gmaps: String,
    pub link_foto: String,
}

impl Fields for TempatNongkrongPayload {
    fn dup(&self) -> (r: Self) {
        TempatNongkrongPayload {
            nama_tempat: self.nama_tempat.clone(),
            kategori: self.kategori.clone(),
            alamat: self.alamat.clone(),
            jam_buka: self.jam_buka.clone(),
            jam_tutup: self.jam_tutup.clone(),
            htm: self.htm,
            link_gmaps: self.link_gmaps.clone(),
            link_foto: self.link_foto.clone(),
        }
    }
}

impl TempatNongkrong {
    /// The persisted record as one flat value.
    pub fn from_stored(s: Stored<TempatNongkrongPayload>) -> (r: Self)
        ensures
            r.id == s.id,
            r.nama_tempat == s.fields.nama_tempat,
            r.kategori == s.fields.kategori,
            r.alamat == s.fields.alamat,
            r.jam_buka == s.fields.jam_buka,
            r.jam_tutup == s.fields.jam_tutup,
            r.htm == s.fields.htm,
            r.link_gmaps == s.fields.link_gmaps,
            r.link_foto == s.fields.link_foto,
    {
        TempatNongkrong {
            id: s.id,
            nama_tempat: s.fields.nama_tempat,
            kategori: s.fields.kategori,
            alamat: s.fields.alamat,
            jam_buka: s.fields.jam_buka,
            jam_tutup: s.fields.jam_tutup,
            htm: s.fields.htm,
            link_gmaps: s.fields.link_gmaps,
            link_foto: s.fields.link_foto,
        }
    }
}

} // verus!
