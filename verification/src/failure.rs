//! The record describing one failure occurrence: an optional source
//! location and a dynamically-typed payload.

use vstd::prelude::*;
use crate::payload::Payload;

verus! {

/// The source position recorded for a failure, when the runtime has one.
pub struct Location {
    /// The source file identifier, as bytes.
    pub file: Vec<u8>,
    /// The line number within that file.
    pub line: u32,
}

/// One failure occurrence, as handed to the installed handler: where it
/// happened (if recorded) and what value it carried.
pub struct FailureInfo {
    /// The source location, or `None` when the runtime recorded none.
    pub location: Option<Location>,
    /// The dynamically-typed value describing what went wrong.
    pub payload: Payload,
}

} // verus!
