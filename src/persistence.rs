use vstd::prelude::*;
use crate::catalog::{empty_catalog, Database};

verus! {

/// Why a catalog could not be loaded or saved.
#[derive(PartialEq, Eq, Structural, Clone, Copy, Debug)]
pub enum PersistenceError {
    /// Nothing is stored at the path.
    NotFound,
    /// The path could not be opened, read or written for another reason.
    Unreadable,
    /// The stored content is not a catalog in the expected encoding.
    Malformed,
}

impl PersistenceError {
    /// The failure to open a source: `NotFound` when nothing is at the path,
    /// `Unreadable` otherwise.
    pub fn on_open(missing: bool) -> (r: PersistenceError)
        ensures
            r == (if missing { PersistenceError::NotFound } else { PersistenceError::Unreadable }),
    {
        if missing {
            PersistenceError::NotFound
        } else {
            PersistenceError::Unreadable
        }
    }

    /// Whether the failure means that no catalog was ever stored at the path.
    pub fn is_not_found(&self) -> (r: bool)
        ensures
            r == (*self is NotFound),
    {
        match self {
            PersistenceError::NotFound => true,
            _ => false,
        }
    }
}

/// The catalog to start a session with, given the outcome of loading it: the
/// loaded catalog; an empty one when nothing was stored yet; the failure
/// otherwise, so that a damaged file is not overwritten.
pub fn start_catalog(loaded: Result<Database, PersistenceError>) -> (r: Result<
    Database,
    PersistenceError,
>)
    ensures
        match loaded {
            Ok(d) => r matches Ok(d2) && d2@ == d@,
            Err(PersistenceError::NotFound) => r matches Ok(d2) && d2@ == empty_catalog(),
            Err(e) => r == Err::<Database, PersistenceError>(e),
        },
{
    match loaded {
        Ok(d) => Ok(d),
        Err(PersistenceError::NotFound) => Ok(Database::new()),
        Err(e) => Err(e),
    }
}

} // verus!
