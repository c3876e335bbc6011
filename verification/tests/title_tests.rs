use desktop_shell::title::{plan_title_update, TitlebarProbe};

#[test]
fn standard_api_is_always_applied() {
    let probes = [
        TitlebarProbe::Absent,
        TitlebarProbe::HeaderBar,
        TitlebarProbe::WrappedHeaderBar,
        TitlebarProbe::Unrecognized,
    ];
    for affected in [false, true] {
        for available in [false, true] {
            for probe in probes {
                let p = plan_title_update("Title", affected, available, probe);
                assert!(p.apply_standard);
                assert_eq!(p.title, "Title");
            }
        }
    }
}

#[test]
fn direct_header_bar_is_patched_on_affected_platform() {
    let p = plan_title_update("Report", true, true, TitlebarProbe::HeaderBar);
    assert!(p.apply_standard);
    assert!(p.patch_header_bar);
    assert!(p.force_redraw);
    assert_eq!(p.title, "Report");
}

#[test]
fn wrapped_header_bar_is_patched_on_affected_platform() {
    let p = plan_title_update("Report", true, true, TitlebarProbe::WrappedHeaderBar);
    assert!(p.patch_header_bar);
    assert_eq!(p.title, "Report");
}

#[test]
fn missing_title_bar_degrades_to_standard_api() {
    let p = plan_title_update("Report", true, true, TitlebarProbe::Absent);
    assert!(p.apply_standard);
    assert!(!p.patch_header_bar);
    assert!(p.force_redraw);
}

#[test]
fn unrecognized_title_bar_is_left_alone() {
    let p = plan_title_update("Report", true, true, TitlebarProbe::Unrecognized);
    assert!(p.apply_standard);
    assert!(!p.patch_header_bar);
}

#[test]
fn unaffected_platform_gets_standard_api_only() {
    let p = plan_title_update("Report", false, true, TitlebarProbe::HeaderBar);
    assert!(p.apply_standard);
    assert!(!p.patch_header_bar);
    assert!(!p.force_redraw);
}

#[test]
fn missing_native_window_skips_patch_and_redraw() {
    let p = plan_title_update("Report", true, false, TitlebarProbe::HeaderBar);
    assert!(p.apply_standard);
    assert!(!p.patch_header_bar);
    assert!(!p.force_redraw);
}
