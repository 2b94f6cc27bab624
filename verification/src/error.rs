//! The single error kind that the storage adapter reports.

use vstd::prelude::*;
use vstd::std_specs::convert::FromSpecImpl;
use vstd::string::StringExecFns;

verus! {

/// A storage engine failure, carrying the engine's diagnostic message.
///
/// There is exactly one kind of failure: the adapter passes the engine's own
/// words on and does not tell an I/O failure from a corruption. The absence of
/// a key is no failure and never appears here.
#[derive(Debug)]
pub struct RocksDbError(pub String);

/// What a failure with the given diagnostic message reads as when shown to a
/// person.
pub open spec fn shown(message: Seq<char>) -> Seq<char> {
    "RocksDb error: "@ + message
}

impl From<String> for RocksDbError {
    fn from(err: String) -> (e: RocksDbError) {
        RocksDbError(err)
    }
}

impl FromSpecImpl<String> for RocksDbError {
    open spec fn obeys_from_spec() -> bool {
        true
    }

    open spec fn from_spec(err: String) -> RocksDbError {
        RocksDbError(err)
    }
}

impl RocksDbError {
    /// The diagnostic message of the engine, word for word.
    pub fn description(&self) -> (text: &str)
        ensures
            text@ == self.0@,
    {
        self.0.as_str()
    }

    /// The failure as shown to a person: a fixed prefix, then the message.
    pub fn to_string(&self) -> (text: String)
        ensures
            text@ == shown(self.0@),
    {
        String::from_str("RocksDb error: ").concat(self.0.as_str())
    }
}

} // verus!
