use desktop_shell::envinit::{compositing_override, compositing_toggle_name};

#[test]
fn toggle_name_is_fixed() {
    assert_eq!(compositing_toggle_name(), "WEBKIT_DISABLE_DMABUF_RENDERER");
}

#[test]
fn toggle_is_set_when_absent_on_affected_platform() {
    assert_eq!(compositing_override(true, &None), Some("1"));
}

#[test]
fn toggle_is_left_alone_when_caller_already_set_it() {
    assert_eq!(compositing_override(true, &Some("0".to_string())), None);
    assert_eq!(compositing_override(true, &Some("1".to_string())), None);
}

#[test]
fn toggle_is_never_set_off_the_affected_platform() {
    assert_eq!(compositing_override(false, &None), None);
    assert_eq!(compositing_override(false, &Some("1".to_string())), None);
}
