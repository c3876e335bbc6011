//! Planning of a window-title update.
//!
//! Setting the title through the toolkit's standard API does not reach the
//! native title-bar widget on one affected platform, and the direct widget
//! patch that compensates can leave stale compositor artifacts unless the
//! whole window is redrawn. The plan built here says which of the three
//! best-effort steps to perform, in order: apply the standard title API,
//! patch the title-bar widget's text directly, force a full redraw. The
//! caller performs the steps on the thread that owns the widget handles and
//! swallows any per-step failure: a missed title update is cosmetic and
//! must never destabilize the running interface.

use vstd::prelude::*;

verus! {

/// Outcome of locating the native window's title-bar widget.
#[derive(Clone, Copy, Debug)]
pub enum TitlebarProbe {
    /// The window carries no title-bar widget.
    Absent,
    /// The title-bar widget is the header bar itself.
    HeaderBar,
    /// The header bar sits one level inside a container widget.
    WrappedHeaderBar,
    /// A title-bar widget exists, but in no recognized shape.
    Unrecognized,
}

/// Whether the probe located a header bar in one of the two supported
/// shapes, directly or one level inside a container.
pub open spec fn probe_finds_header_bar(p: TitlebarProbe) -> bool {
    p is HeaderBar || p is WrappedHeaderBar
}

/// The steps of one title update, in order. `title` is the text that every
/// performed step applies.
pub struct TitlePlan {
    pub title: String,
    pub apply_standard: bool,
    pub patch_header_bar: bool,
    pub force_redraw: bool,
}

/// Plans one title update. The standard title API is applied always,
/// whatever the platform and whatever the widget probe found. The direct
/// header-bar patch and the full redraw happen only on the affected
/// platform and only when the native window handle is available; the patch
/// additionally needs the header bar in one of its two supported shapes.
/// When the title-bar widget is missing or unrecognized, the update
/// degrades to the standard API alone, with no error.
pub fn plan_title_update(
    title: &str,
    affected_platform: bool,
    native_window_available: bool,
    probe: TitlebarProbe,
) -> (p: TitlePlan)
    ensures
        p.title@ == title@,
        p.apply_standard,
        p.patch_header_bar == (affected_platform && native_window_available
            && probe_finds_header_bar(probe)),
        p.force_redraw == (affected_platform && native_window_available),
{
    let patch = affected_platform && native_window_available && (match probe {
        TitlebarProbe::HeaderBar => true,
        TitlebarProbe::WrappedHeaderBar => true,
        TitlebarProbe::Absent => false,
        TitlebarProbe::Unrecognized => false,
    });
    TitlePlan {
        title: title.to_owned(),
        apply_standard: true,
        patch_header_bar: patch,
        force_redraw: affected_platform && native_window_available,
    }
}

} // verus!
