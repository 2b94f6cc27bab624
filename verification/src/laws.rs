//! What holds of the adapter over any store that keeps the engine's contract.
//!
//! Each law speaks of the replies that the adapter gives to answers of the
//! engine, and of what the store holds between them. An engine may fail at
//! any call; a law that promises a value does so for the calls that the
//! engine answered.

use vstd::prelude::*;
use crate::adapter::{contains_reply, get_reply, write_reply};
use crate::error::RocksDbError;
use crate::store::{after_delete, after_put, after_writes, answers_lookup, last_write, Contents, Write};

verus! {

/// Round trip: after an `insert` of a value under a key that the engine
/// applied, a `get` of that key that the engine answers replies with exactly
/// that value, and `contains` replies `true`.
pub proof fn lemma_insert_then_get(
    store: Contents,
    key: Seq<u8>,
    value: Seq<u8>,
    written: Result<(), String>,
    found: Result<Option<Vec<u8>>, String>,
)
    requires
        written is Ok,
        found is Ok,
        answers_lookup(after_put(store, key, value, written), key, found),
    ensures
        write_reply(written) == Ok::<(), RocksDbError>(()),
        get_reply(found) matches Ok(Some(read)) && read@ == value,
        contains_reply(found) == Ok::<bool, RocksDbError>(true),
{
}

/// What a key reads as after a run of writes: as its last write left it, or,
/// where no write was about it, as the store held it before.
pub proof fn lemma_last_write_wins(store: Contents, writes: Seq<Write>, key: Seq<u8>)
    ensures
        match last_write(writes, key) {
            Some(Write::Put { value, .. }) => {
                &&& after_writes(store, writes).contains_key(key)
                &&& after_writes(store, writes)[key] == value
            },
            Some(Write::Delete { .. }) => !after_writes(store, writes).contains_key(key),
            None => {
                &&& after_writes(store, writes).contains_key(key) == store.contains_key(key)
                &&& store.contains_key(key) ==> after_writes(store, writes)[key] == store[key]
            },
        },
    decreases writes.len(),
{
    if writes.len() > 0 {
        lemma_last_write_wins(store, writes.drop_last(), key);
    }
}

/// Absence is not failure. Take a key that was never inserted (the store did
/// not hold it at first and no write was about it) or that was removed
/// (the last write about it was a delete). Whenever the engine answers, `get`
/// replies `Ok(None)` and `contains` replies `Ok(false)`; and neither replies
/// with an error unless the engine itself failed.
pub proof fn lemma_absent_key_is_no_error(
    store: Contents,
    writes: Seq<Write>,
    key: Seq<u8>,
    found: Result<Option<Vec<u8>>, String>,
)
    requires
        match last_write(writes, key) {
            Some(write) => write is Delete,
            None => !store.contains_key(key),
        },
        answers_lookup(after_writes(store, writes), key, found),
    ensures
        found is Ok ==> get_reply(found) == Ok::<Option<Vec<u8>>, RocksDbError>(None),
        found is Ok ==> contains_reply(found) == Ok::<bool, RocksDbError>(false),
        get_reply(found) is Err <==> found is Err,
        contains_reply(found) is Err <==> found is Err,
{
    lemma_last_write_wins(store, writes, key);
}

/// Idempotent remove: two `remove`s of one key in succession, both applied by
/// the engine, both reply `Ok(())`; the second changes nothing, and neither
/// does the first where the key was not there; and after either of them
/// `contains` replies `Ok(false)` whenever the engine answers.
pub proof fn lemma_remove_twice(
    store: Contents,
    key: Seq<u8>,
    first: Result<(), String>,
    second: Result<(), String>,
    found_between: Result<Option<Vec<u8>>, String>,
    found_after: Result<Option<Vec<u8>>, String>,
)
    requires
        first is Ok,
        second is Ok,
        found_between is Ok,
        found_after is Ok,
        answers_lookup(after_delete(store, key, first), key, found_between),
        answers_lookup(
            after_delete(after_delete(store, key, first), key, second),
            key,
            found_after,
        ),
    ensures
        write_reply(first) == Ok::<(), RocksDbError>(()),
        write_reply(second) == Ok::<(), RocksDbError>(()),
        after_delete(after_delete(store, key, first), key, second) == after_delete(
            store,
            key,
            first,
        ),
        !store.contains_key(key) ==> after_delete(store, key, first) == store,
        contains_reply(found_between) == Ok::<bool, RocksDbError>(false),
        contains_reply(found_after) == Ok::<bool, RocksDbError>(false),
{
    assert(store.remove(key).remove(key) =~= store.remove(key));
    if !store.contains_key(key) {
        assert(store.remove(key) =~= store);
    }
}

/// Overwrite: after two `insert`s under one key, both applied by the engine,
/// a `get` of that key that the engine answers replies with the second value.
pub proof fn lemma_insert_overwrites(
    store: Contents,
    key: Seq<u8>,
    first_value: Seq<u8>,
    second_value: Seq<u8>,
    first: Result<(), String>,
    second: Result<(), String>,
    found: Result<Option<Vec<u8>>, String>,
)
    requires
        first is Ok,
        second is Ok,
        found is Ok,
        answers_lookup(
            after_put(after_put(store, key, first_value, first), key, second_value, second),
            key,
            found,
        ),
    ensures
        write_reply(first) == Ok::<(), RocksDbError>(()),
        write_reply(second) == Ok::<(), RocksDbError>(()),
        get_reply(found) matches Ok(Some(read)) && read@ == second_value,
{
}

/// Every key that was inserted and not removed afterwards is read back with
/// the value that was written last: after a run of writes whose last write
/// about the key is a put, a `get` of the key that the engine answers replies
/// with the value of that put.
///
/// This is stated of what the store holds. That a store holds the same when
/// its path is opened again is the engine's promise.
pub proof fn lemma_get_after_writes(
    store: Contents,
    writes: Seq<Write>,
    key: Seq<u8>,
    found: Result<Option<Vec<u8>>, String>,
)
    requires
        last_write(writes, key) matches Some(write) && write is Put,
        found is Ok,
        answers_lookup(after_writes(store, writes), key, found),
    ensures
        get_reply(found) matches Ok(Some(read)) && read@ == last_write(writes, key)->0->value,
        contains_reply(found) == Ok::<bool, RocksDbError>(true),
{
    lemma_last_write_wins(store, writes, key);
}

} // verus!
