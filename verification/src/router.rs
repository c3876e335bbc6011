//! Routing of native menu activation events.
//!
//! The router stands in one listening state for the process lifetime. An
//! activation of the quit entry terminates the process at once with exit
//! code 0 and notifies nobody; any other activation is forwarded verbatim,
//! as the payload of exactly one "menu-action" event, to the user
//! interface's event channel.

use vstd::prelude::*;

verus! {

/// Identifier of the menu entry whose activation terminates the process.
pub fn quit_id() -> (r: &'static str)
    ensures
        r@ == "quit"@,
{
    "quit"
}

/// Name of the event through which forwarded activations reach the user
/// interface.
pub fn menu_action_event_name() -> (r: &'static str)
    ensures
        r@ == "menu-action"@,
{
    "menu-action"
}

/// Whether activating this identifier terminates the process instead of
/// forwarding an event.
pub open spec fn routes_to_exit(id: Seq<char>) -> bool {
    id == "quit"@
}

/// What the router does with one activation: either terminate the process
/// with the given exit code, emitting nothing, or forward the identifier
/// as the payload of exactly one "menu-action" event.
pub enum MenuAction {
    Exit(i32),
    Forward(String),
}

/// Character-for-character equality of two string slices.
fn str_eq(a: &str, b: &str) -> (r: bool)
    ensures
        r == (a@ == b@),
{
    a.to_owned() == b.to_owned()
}

/// Routes one menu activation: the quit identifier becomes an immediate
/// exit with code 0 and no event; every other identifier is forwarded
/// verbatim as the payload of one "menu-action" event.
pub fn route(id: &str) -> (a: MenuAction)
    ensures
        routes_to_exit(id@) ==> a == MenuAction::Exit(0i32),
        !routes_to_exit(id@) ==> (a matches MenuAction::Forward(p) && p@ == id@),
{
    if str_eq(id, "quit") {
        MenuAction::Exit(0)
    } else {
        MenuAction::Forward(id.to_owned())
    }
}

/// Among the menu's identifiers, quit alone is routed to an exit: each of
/// open, save, save_as, close and help is forwarded, and quit is not.
pub proof fn lemma_quit_alone_exits()
    ensures
        routes_to_exit("quit"@),
        !routes_to_exit("open"@),
        !routes_to_exit("save"@),
        !routes_to_exit("save_as"@),
        !routes_to_exit("close"@),
        !routes_to_exit("help"@),
{
    reveal_strlit("quit");
    reveal_strlit("open");
    reveal_strlit("save");
    reveal_strlit("save_as");
    reveal_strlit("close");
    reveal_strlit("help");
    assert("quit"@[0] == 'q' && "open"@[0] == 'o' && "save"@[0] == 's' && "close"@[0] == 'c'
        && "help"@[0] == 'h');
    assert("quit"@.len() == 4 && "save_as"@.len() == 7);
}

} // verus!
