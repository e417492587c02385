//! Asset-path resolution for the audio cue played alongside a reset.
//!
//! Playing the clip itself is an I/O concern and stays outside the
//! library; what is decided here is only which local file the cue comes
//! from.  The path differs between a development tree (assets relative
//! to the working directory) and an installed deployment (assets under
//! the system share directory) — a build-time distinction that the
//! caller passes in as a flag.

use vstd::prelude::*;
use crate::kind::ResetKind;

verus! {

/// The cue file for `k` in a development tree.
pub open spec fn dev_cue_path(k: ResetKind) -> Seq<char> {
    match k {
        ResetKind::Full => "assets/full-reset.mp3"@,
        ResetKind::Yaw => "assets/yaw-reset.mp3"@,
    }
}

/// The cue file for `k` in an installed deployment.
pub open spec fn installed_cue_path(k: ResetKind) -> Seq<char> {
    match k {
        ResetKind::Full => "/usr/share/assets/full-reset.mp3"@,
        ResetKind::Yaw => "/usr/share/assets/yaw-reset.mp3"@,
    }
}

/// Resolves the audio asset for a reset kind.  `installed` says whether
/// the binary runs from an installed deployment rather than a
/// development tree.
pub fn cue_asset_path(k: ResetKind, installed: bool) -> (p: &'static str)
    ensures
        p@ == if installed {
            installed_cue_path(k)
        } else {
            dev_cue_path(k)
        },
{
    match (k, installed) {
        (ResetKind::Full, false) => "assets/full-reset.mp3",
        (ResetKind::Yaw, false) => "assets/yaw-reset.mp3",
        (ResetKind::Full, true) => "/usr/share/assets/full-reset.mp3",
        (ResetKind::Yaw, true) => "/usr/share/assets/yaw-reset.mp3",
    }
}

} // verus!
