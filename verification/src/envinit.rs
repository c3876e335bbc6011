//! One-time process-environment adjustment applied before any window exists.
//!
//! On the affected platform the embedded renderer's hardware-accelerated
//! compositing path leaves stale frame content behind; setting one
//! environment toggle forces a software path that repaints correctly. The
//! caller's own setting, when present, takes precedence.

use vstd::prelude::*;

verus! {

/// Name of the environment toggle that disables the renderer's
/// hardware-accelerated compositing path.
pub fn compositing_toggle_name() -> (r: &'static str)
    ensures
        r@ == "WEBKIT_DISABLE_DMABUF_RENDERER"@,
{
    "WEBKIT_DISABLE_DMABUF_RENDERER"
}

/// Decides what value, if any, to store into the environment toggle.
///
/// `affected_platform` says whether the process runs on the platform with
/// the compositing defect; `current` is the toggle's present value, if set.
/// Returns the value to store, or `None` when nothing must change: the
/// toggle is set only on the affected platform and only when absent, so a
/// caller-provided setting is never overwritten.
pub fn compositing_override(affected_platform: bool, current: &Option<String>) -> (r: Option<
    &'static str,
>)
    ensures
        (affected_platform && current is None) <==> (r matches Some(v) && v@ == "1"@),
        !(affected_platform && current is None) <==> r is None,
{
    if affected_platform && current.is_none() {
        Some("1")
    } else {
        None
    }
}

} // verus!
