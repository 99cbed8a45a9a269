//! The culinary-venue catalog resource.

use vstd::prelude::*;

use crate::store::Fields;
use crate::store::Stored;

verus! {

/// A culinary venue as persisted: store-assigned identifier plus fields.
pub struct Kuliner {
    pub id: i32,
    pub nama_tempat: String,
    pub kategori: String,
    pub alamat: String,
    pub htm: i32,
    pub link_gmaps: String,
    pub link_foto: String,
}

/// The submitted fields of a culinary venue; every field is required.
pub struct KulinerPayload {
    pub nama_tempat: String,
    pub kategori: String,
    pub alamat: String,
    pub htm: i32,
    pub link_gmaps: String,
    pub link_foto: String,
}

impl Fields for KulinerPayload {
    fn dup(&self) -> (r: Self) {
        KulinerPayload {
            nama_tempat: self.nama_tempat.clone(),
            kategori: self.kategori.clone(),
            alamat: self.alamat.clone(),
            htm: self.htm,
            link_gmaps: self.link_gmaps.clone(),
            link_foto: self.link_foto.clone(),
        }
    }
}

impl Kuliner {
    /// The persisted record as one flat value.
    pub fn from_stored(s: Stored<KulinerPayload>) -> (r: Self)
        ensures
            r.id == s.id,
            r.nama_tempat == s.fields.nama_tempat,
            r.kategori == s.fields.kategori,
            r.alamat == s.fields.alamat,
            r.htm == s.fields.htm,
            r.link_gmaps == s.fields.link_gmaps,
            r.link_foto == s.fields.link_foto,
    {
        Kuliner {
            id: s.id,
            nama_tempat: s.fields.nama_tempat,
            kategori: s.fields.kategori,
            alamat: s.fields.alamat,
            htm: s.fields.htm,
            link_gmaps: s.fields.link_gmaps,
            link_foto: s.fields.link_foto,
        }
    }
}

} // verus!
