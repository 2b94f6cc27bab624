//! What the adapter assumes of the durable store behind it.
//!
//! The engine is a collaborator that is not verified here. Its contract is
//! written down as a model: what a store holds is a map from keys to values,
//! a lookup answers truthfully or fails, and a write either applies in full
//! or fails and changes nothing. The laws of this library are stated against
//! this model.

use vstd::prelude::*;

verus! {

/// What a durable store holds at one moment: each key that is present, with
/// its value. Keys and values are byte strings of any length.
pub type Contents = Map<Seq<u8>, Seq<u8>>;

/// One write that the engine has applied.
pub enum Write {
    /// The value was stored under the key, replacing what was there.
    Put { key: Seq<u8>, value: Seq<u8> },
    /// The key was taken out; nothing changed if it was not there.
    Delete { key: Seq<u8> },
}

impl Write {
    /// The key that the write is about.
    pub open spec fn key(self) -> Seq<u8> {
        match self {
            Write::Put { key, .. } => key,
            Write::Delete { key } => key,
        }
    }
}

/// Whether `found` is an answer that the engine may give to a lookup of `key`
/// while it holds `store`: the value under the key, the absence of the key,
/// or a failure with any message.
pub open spec fn answers_lookup(
    store: Contents,
    key: Seq<u8>,
    found: Result<Option<Vec<u8>>, String>,
) -> bool {
    match found {
        Ok(Some(value)) => store.contains_key(key) && store[key] == value@,
        Ok(None) => !store.contains_key(key),
        Err(_) => true,
    }
}

/// What the store holds after a put of `value` under `key` that the engine
/// answered with `written`.
pub open spec fn after_put(
    store: Contents,
    key: Seq<u8>,
    value: Seq<u8>,
    written: Result<(), String>,
) -> Contents {
    if written is Ok {
        store.insert(key, value)
    } else {
        store
    }
}

/// What the store holds after a delete of `key` that the engine answered with
/// `deleted`.
pub open spec fn after_delete(store: Contents, key: Seq<u8>, deleted: Result<(), String>) -> Contents {
    if deleted is Ok {
        store.remove(key)
    } else {
        store
    }
}

/// What the store holds after the engine has applied `writes`, first to last.
pub open spec fn after_writes(store: Contents, writes: Seq<Write>) -> Contents
    decreases writes.len(),
{
    if writes.len() == 0 {
        store
    } else {
        let before = after_writes(store, writes.drop_last());
        match writes.last() {
            Write::Put { key, value } => before.insert(key, value),
            Write::Delete { key } => before.remove(key),
        }
    }
}

/// The last of `writes` that is about `key`, if there is one.
pub open spec fn last_write(writes: Seq<Write>, key: Seq<u8>) -> Option<Write>
    decreases writes.len(),
{
    if writes.len() == 0 {
        None
    } else if writes.last().key() == key {
        Some(writes.last())
    } else {
        last_write(writes.drop_last(), key)
    }
}

} // verus!
