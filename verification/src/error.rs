//! The ways in which reading a header or filling the zero page can fail.

use vstd::prelude::*;

verus! {

/// Failures reported by this crate. None of them is retried here.
#[derive(Clone, Copy, Debug, PartialEq, Eq, Structural)]
pub enum BootError {
    /// The input ends before the last byte of the setup header.
    BufferTooSmall,
    /// The `boot_flag` field does not hold the boot sector magic.
    InvalidBootFlag,
    /// The `header` field does not hold the "HdrS" signature.
    InvalidSignature,
    /// The protocol version is older than the oldest supported one.
    UnsupportedVersion,
    /// The memory map table has no room for the entries offered.
    TableFull,
}

} // verus!
