//! # Caves
//!
//! A selection of key-value stores with a single, uniform capability
//! contract: get, set and delete a key by name. Every store offers the same
//! interface with the same semantics, so a caller written against the
//! [`Cave`] trait can be bound to any backend.
//!
//! The differences a caller has to know are limited to:
//!
//! * Naming restrictions: a backend may restrict the characters of a name
//!   (the file-backed store cannot take a `/` in a name).
//! * Persistence guarantees: the in-memory store loses its state when the
//!   process ends; the file-backed and embedded-database stores keep theirs.
//!
//! Every failure is classified into the closed taxonomy of
//! [`errors::Error`]; no backend-specific error type reaches a caller.

use vstd::prelude::*;

pub mod embedded;
pub mod errors;
mod file;
pub mod memory;
pub mod res;

pub use crate::file::{DirStatus, FileCave, IoFailure};
pub use crate::memory::{MemTable, MemoryCave};

use crate::errors::Error;
use crate::res::Res;

verus! {

/// A simple interface for key-value stores.
///
/// A `Cave` object must have support for the following actions:
///
/// * Get a key by name, or return an error if it doesn't exist.
/// * Store a key by name; update it if it exists or create it if it doesn't.
/// * Delete a key by name, or return an error if it doesn't exist.
///
/// These actions must be able to happen concurrently, from any thread, so an
/// implementation must not rely on exclusive mutable references to update
/// its state. Because another thread may run between two calls on the same
/// instance, the contract of each operation only pins what holds of every
/// outcome: a `get` or `delete` that fails with `NotFound` names the key it
/// was asked for, and a `set` never fails with `NotFound` and returns no
/// bytes on success.
pub trait Cave: Send + Sync {
    /// Get a key by its name, and return its contents.
    ///
    /// If it does not exist, return an error.
    fn get(&self, name: &str) -> (r: Res)
        ensures
            r matches Err(Error::NotFound(s)) ==> s@ == name@,
    ;

    /// Create or update a key by its name.
    fn set(&self, name: &str, data: &[u8]) -> (r: Res)
        ensures
            r matches Ok(v) ==> v@ == Seq::<u8>::empty(),
            r matches Err(e) ==> !(e is NotFound),
    ;

    /// Delete a key by its name.
    ///
    /// If it does not exist, return an error.
    fn delete(&self, name: &str) -> (r: Res)
        ensures
            r matches Ok(v) ==> v@ == Seq::<u8>::empty(),
            r matches Err(Error::NotFound(s)) ==> s@ == name@,
    ;

    /// A helper method to return an error for keys that could not be found.
    fn not_found(&self, name: &str) -> (r: Res)
        ensures
            r matches Err(Error::NotFound(s)) && s@ == name@,
    {
        Err(Error::NotFound(name.to_owned()))
    }
}

} // verus!
