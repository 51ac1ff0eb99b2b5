use vstd::prelude::*;

verus! {

/// The failure surface of the storage layer.
///
/// `NotFound` reports a lookup of an identifier that no row carries.
/// `Duplicate` reports an insert whose identifier is already present (the
/// primary-key constraint). `Storage` carries a backend's own message, such
/// as a connection fault; the in-memory repository never produces it.
#[derive(Debug)]
pub enum RepoError {
    NotFound,
    Duplicate,
    Storage(String),
}

} // verus!
