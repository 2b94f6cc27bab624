//! The four operations that a trie asks of its storage, as replies to what the
//! engine answered.
//!
//! Each operation is one request to the engine and one reply to the trie. The
//! request is made by whoever holds the engine's handle; the functions here
//! decide the reply. An answer of the engine is handed in as plain values: the
//! bytes it found, or the words of its failure.

use vstd::prelude::*;
use crate::error::RocksDbError;

verus! {

/// The reply to a lookup that the engine answered with `found`: what was
/// found, present or absent, is passed on; a failure is wrapped.
pub open spec fn get_reply(found: Result<Option<Vec<u8>>, String>) -> Result<
    Option<Vec<u8>>,
    RocksDbError,
> {
    match found {
        Ok(value) => Ok(value),
        Err(reason) => Err(RocksDbError(reason)),
    }
}

/// The reply to a membership test for which the engine answered the lookup
/// with `found`: whether a value is present, or the wrapped failure.
pub open spec fn contains_reply(found: Result<Option<Vec<u8>>, String>) -> Result<
    bool,
    RocksDbError,
> {
    match found {
        Ok(value) => Ok(value is Some),
        Err(reason) => Err(RocksDbError(reason)),
    }
}

/// The reply to a write (a put or a delete) that the engine answered with
/// `done`: success stays success, a failure is wrapped.
pub open spec fn write_reply(done: Result<(), String>) -> Result<(), RocksDbError> {
    match done {
        Ok(()) => Ok(()),
        Err(reason) => Err(RocksDbError(reason)),
    }
}

/// Replies to `get(key)`, given the engine's answer to the lookup of `key`.
///
/// A key that is not there is an ordinary outcome, `Ok(None)`, never an
/// error. Only a failure of the engine gives an error, and it carries the
/// engine's message unchanged.
pub fn get(found: Result<Option<Vec<u8>>, String>) -> (reply: Result<
    Option<Vec<u8>>,
    RocksDbError,
>)
    ensures
        reply == get_reply(found),
{
    match found {
        Ok(Some(value)) => Ok(Some(value)),
        Ok(None) => Ok(None),
        Err(reason) => Err(RocksDbError::from(reason)),
    }
}

/// Replies to `insert(key, value)`, given the engine's answer to the put.
pub fn insert(written: Result<(), String>) -> (reply: Result<(), RocksDbError>)
    ensures
        reply == write_reply(written),
{
    match written {
        Ok(()) => Ok(()),
        Err(reason) => Err(RocksDbError::from(reason)),
    }
}

/// Replies to `contains(key)`, given the engine's answer to the lookup of
/// `key`: `true` exactly when `get` would reply with a value.
///
/// A key that is not there gives `Ok(false)`. A failure of the engine is
/// passed on as a failure and is not taken for absence.
pub fn contains(found: Result<Option<Vec<u8>>, String>) -> (reply: Result<bool, RocksDbError>)
    ensures
        reply == contains_reply(found),
{
    match get(found) {
        Ok(Some(_)) => Ok(true),
        Ok(None) => Ok(false),
        Err(failure) => Err(failure),
    }
}

/// Replies to `remove(key)`, given the engine's answer to the delete.
pub fn remove(deleted: Result<(), String>) -> (reply: Result<(), RocksDbError>)
    ensures
        reply == write_reply(deleted),
{
    match deleted {
        Ok(()) => Ok(()),
        Err(reason) => Err(RocksDbError::from(reason)),
    }
}

} // verus!
