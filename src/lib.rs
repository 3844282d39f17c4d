//! A personal library catalog: authors, books and their owners, held in
//! append-only collections where an entry's position is its identity.

pub mod catalog;
pub mod laws;
pub mod persistence;
pub mod session;
