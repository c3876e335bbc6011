use desktop_shell::menu::{build_menu, MenuEntry};
use desktop_shell::router::{menu_action_event_name, quit_id, route, MenuAction};

#[test]
fn quit_exits_with_code_zero_and_emits_nothing() {
    match route("quit") {
        MenuAction::Exit(code) => assert_eq!(code, 0),
        MenuAction::Forward(p) => panic!("quit forwarded {:?}", p),
    }
}

#[test]
fn save_forwards_exactly_its_identifier() {
    match route("save") {
        MenuAction::Forward(p) => assert_eq!(p, "save"),
        MenuAction::Exit(_) => panic!("save terminated the process"),
    }
}

#[test]
fn every_non_quit_menu_identifier_forwards_itself() {
    for id in ["open", "save", "save_as", "close", "help"] {
        match route(id) {
            MenuAction::Forward(p) => assert_eq!(p, id),
            MenuAction::Exit(_) => panic!("{} terminated the process", id),
        }
    }
}

#[test]
fn quit_is_the_only_menu_identifier_that_exits() {
    let m = build_menu();
    for sub in &m.submenus {
        for entry in &sub.entries {
            if let MenuEntry::Item(item) = entry {
                let exits = matches!(route(&item.id), MenuAction::Exit(_));
                assert_eq!(exits, item.id == "quit");
            }
        }
    }
}

#[test]
fn unknown_identifier_forwards_verbatim() {
    match route("reload") {
        MenuAction::Forward(p) => assert_eq!(p, "reload"),
        MenuAction::Exit(_) => panic!("unknown identifier terminated the process"),
    }
}

#[test]
fn event_channel_names_are_fixed() {
    assert_eq!(quit_id(), "quit");
    assert_eq!(menu_action_event_name(), "menu-action");
}
