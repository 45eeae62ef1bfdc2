//! How long unsaved recordings are kept.
use vstd::prelude::*;

verus! {

/// How long unsaved recordings are kept before automatic cleanup.
///
/// `PreserveLimit` keeps a number of recordings (the history limit, set
/// separately); every other variant cleans up by age.
#[derive(Debug, Clone, Copy, PartialEq, Eq, Structural)]
pub enum RecordingRetentionPeriod {
    Never,
    PreserveLimit,
    Days3,
    Weeks2,
    Months3,
}

} // verus!
