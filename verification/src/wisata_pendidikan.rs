//! The education-site catalog resource.
//!
//! The submitted payload (`WisataSql`) uses short field names; the persisted
//! record (`WisataResponseModel`) carries the store's column names, so the
//! conversion maps `name` to `nama_tempat`, `open` to `jam_buka`, and so on.

use vstd::prelude::*;

use crate::store::Fields;
use crate::store::Stored;

verus! {

/// The submitted fields of an education site; every field is required.
pub struct WisataSql {
    pub name: String,
    pub category: String,
    pub address: String,
    pub open: String,
    pub close: String,
    pub htm: i32,
    pub gmaps: String,
    pub pictures: String,
}

/// An education site as persisted: store-assigned identifier plus fields under
/// the store's column names.
pub struct WisataResponseModel {
    pub id: i32,
    pub nama_tempat: String,
    pub kategori: String,
    pub alamat: String,
    pub jam_buka: String,
    pub jam_tutup: String,
    pub htm: i32,
    pub link_gmaps: String,
    pub link_foto: String,
}

/// The acknowledgement message returned by the create, update and delete
/// endpoints of this catalog.
pub struct WisataResponse {
    pub message: String,
}

impl Fields for WisataSql {
    fn dup(&self) -> (r: Self) {
        WisataSql {
            name: self.name.clone(),
            category: self.category.clone(),
            address: self.address.clone(),
            open: self.open.clone(),
            close: self.close.clone(),
            htm: self.htm,
            gmaps: self.gmaps.clone(),
            pictures: self.pictures.clone(),
        }
    }
}

impl WisataResponseModel {
    /// The persisted record as one flat value, under the store's column
    /// names.
    pub fn from_stored(s: Stored<WisataSql>) -> (r: Self)
        ensures
            r.id == s.id,
            r.nama_tempat == s.fields.name,
            r.kategori == s.fields.category,
            r.alamat == s.fields.address,
            r.jam_buka == s.fields.open,
            r.jam_tutup == s.fields.close,
            r.htm == s.fields.htm,
            r.link_gmaps == s.fields.gmaps,
            r.link_foto == s.fields.pictures,
    {
        WisataResponseModel {
            id: s.id,
            nama_tempat: s.fields.name,
            kategori: s.fields.category,
            alamat: s.fields.address,
            jam_buka: s.fields.open,
            jam_tutup: s.fields.close,
            htm: s.fields.htm,
            link_gmaps: s.fields.gmaps,
            link_foto: s.fields.pictures,
        }
    }
}

} // verus!
