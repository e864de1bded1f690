//! Single-entry ZIP compression and extraction over in-memory buffers.
//!
//! The library builds a one-entry ZIP archive from a byte buffer and an entry
//! name, and reads the first entry of an archive back out, reporting every
//! failure through a small closed status enumeration instead of panicking.

use vstd::prelude::*;

pub mod archive;
pub mod laws;
pub mod zip_io;

verus! {

/// Status reported by every fallible operation of this library.
#[derive(Clone, Copy, Debug, PartialEq, Eq, Structural)]
pub enum Status {
    Okay,
    NullArgument,
    IoFailure,
    ArchiveFailure,
    AllocationFailure,
}

/// The numeric code a foreign caller receives for each status.
pub open spec fn status_code_spec(s: Status) -> int {
    match s {
        Status::Okay => 0,
        Status::NullArgument => 1,
        Status::IoFailure => 2,
        Status::ArchiveFailure => 3,
        Status::AllocationFailure => 4,
    }
}

impl Status {
    /// The numeric code of this status, as handed across a foreign boundary.
    pub fn code(&self) -> (r: i32)
        ensures
            r == status_code_spec(*self),
    {
        match self {
            Status::Okay => 0,
            Status::NullArgument => 1,
            Status::IoFailure => 2,
            Status::ArchiveFailure => 3,
            Status::AllocationFailure => 4,
        }
    }
}

} // verus!
