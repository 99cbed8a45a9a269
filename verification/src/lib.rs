//! Verified core of a catalog-and-credential data service.
//!
//! The service exposes uniform Create/Get/List/Update/Delete operations over
//! several independent catalog resources (nature sites, education sites,
//! culinary venues, hangout spots, news articles), plus registration and
//! login for two credential classes (users, admins) and an append-only chat
//! log. This crate holds the verified logic: the resource-store semantics,
//! the affected-row rule that turns a zero-row update or delete into
//! `NotFound`, payload validation, and the hash-then-verify discipline of
//! the authenticator. Transport, routing and the SQL round-trips live
//! outside the library.

pub mod admin;
pub mod auth;
pub mod chatbot;
pub mod errors;
pub mod kuliner;
pub mod news;
pub mod store;
pub mod tempat_nongkrong;
pub mod user;
pub mod validate;
pub mod wisata_alam;
pub mod wisata_pendidikan;
