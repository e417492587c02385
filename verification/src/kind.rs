//! The kind of recalibration asked of the tracking server.

use vstd::prelude::*;

verus! {

/// Which recalibration the tracking server should perform: a full
/// orientation reset or a yaw-only drift correction.  Chosen once from
/// the invoked subcommand and immutable afterwards.
#[derive(Clone, Copy, Debug, PartialEq, Eq, Structural)]
pub enum ResetKind {
    Full,
    Yaw,
}

/// The wire value of this kind in the server schema's `ResetType`
/// enumeration (`Yaw` is the enumeration's first member, `Full` its
/// second).  The schema defines further values that this client never
/// emits.
pub open spec fn kind_code(k: ResetKind) -> u8 {
    match k {
        ResetKind::Full => 1,
        ResetKind::Yaw => 0,
    }
}

/// The executable counterpart of [`kind_code`].
pub fn reset_code(k: ResetKind) -> (c: u8)
    ensures
        c == kind_code(k),
{
    match k {
        ResetKind::Full => 1,
        ResetKind::Yaw => 0,
    }
}

} // verus!
