//! The unit of session state that the store keeps.

use vstd::prelude::*;

verus! {

/// A session as the store keeps it. The store never looks into `data`.
#[derive(Debug, Clone, PartialEq, Eq)]
pub struct Record {
    /// The session's identifier.
    pub id: i128,
    /// The session's state, as the session layer has serialised it.
    pub data: Vec<u8>,
    /// The instant from which the record counts as gone, in nanoseconds
    /// since the Unix epoch.
    pub expiry: i128,
}

} // verus!
