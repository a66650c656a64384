//! The menu/tray event router: a stateless dispatch table from event
//! identifiers to the three logical actions of the shell, and from an action
//! to the window operations and the process exit it requests.

use vstd::prelude::*;

verus! {

/// The logical action a tray or menu event routes to.
#[derive(Clone, Copy, Debug, PartialEq, Eq, Structural)]
pub enum RoutedAction {
    /// Show the main window, give it focus, center it.
    ShowMainWindow,
    /// Hide the main window.
    HideMainWindow,
    /// Terminate the process.
    ExitProcess,
    /// No observable action.
    Noop,
}

/// A single operation on the main window, to be performed by the GUI host.
#[derive(Clone, Copy, Debug, PartialEq, Eq, Structural)]
pub enum WindowOp {
    Show,
    SetFocus,
    Center,
    Hide,
}

/// The kinds of tray-icon interaction the GUI host reports.
#[derive(Clone, Copy, Debug, PartialEq, Eq, Structural)]
pub enum TrayInteraction {
    Click,
    DoubleClick,
    Enter,
    Move,
    Leave,
}

/// The action a clicked menu item routes to, by its identifier.
pub open spec fn route_of_menu_id(id: Seq<char>) -> RoutedAction {
    if id == "show"@ {
        RoutedAction::ShowMainWindow
    } else if id == "hide"@ {
        RoutedAction::HideMainWindow
    } else if id == "quit"@ {
        RoutedAction::ExitProcess
    } else {
        RoutedAction::Noop
    }
}

/// The action a tray-icon interaction routes to: a double click acts as the
/// `show` menu item, every other interaction is ignored.
pub open spec fn route_of_tray_event(e: TrayInteraction) -> RoutedAction {
    if e is DoubleClick {
        RoutedAction::ShowMainWindow
    } else {
        RoutedAction::Noop
    }
}

/// The window operations an action requests, given whether a window named
/// "main" currently exists. Absence of the window makes every action a
/// silent no-op on the window.
pub open spec fn window_ops_of(a: RoutedAction, window_present: bool) -> Seq<WindowOp> {
    match a {
        RoutedAction::ShowMainWindow => if window_present {
            seq![WindowOp::Show, WindowOp::SetFocus, WindowOp::Center]
        } else {
            Seq::empty()
        },
        RoutedAction::HideMainWindow => if window_present {
            seq![WindowOp::Hide]
        } else {
            Seq::empty()
        },
        RoutedAction::ExitProcess => Seq::empty(),
        RoutedAction::Noop => Seq::empty(),
    }
}

/// The process exit an action requests: `quit` exits with code 0, nothing
/// else touches the process.
pub open spec fn exit_request_of(a: RoutedAction) -> Option<i32> {
    match a {
        RoutedAction::ExitProcess => Some(0i32),
        _ => None,
    }
}

/// Compares two string slices by their character sequences.
fn str_eq(a: &str, b: &str) -> (r: bool)
    ensures
        r == (a@ == b@),
{
    let a_owned: String = a.to_owned();
    let b_owned: String = b.to_owned();
    a_owned == b_owned
}

/// Routes a clicked menu item to its action. Identifiers other than `show`,
/// `hide` and `quit` route to `Noop`.
pub fn route_menu_event(id: &str) -> (a: RoutedAction)
    ensures
        a == route_of_menu_id(id@),
{
    if str_eq(id, "show") {
        RoutedAction::ShowMainWindow
    } else if str_eq(id, "hide") {
        RoutedAction::HideMainWindow
    } else if str_eq(id, "quit") {
        RoutedAction::ExitProcess
    } else {
        RoutedAction::Noop
    }
}

/// Routes a tray-icon interaction to its action.
pub fn route_tray_event(e: TrayInteraction) -> (a: RoutedAction)
    ensures
        a == route_of_tray_event(e),
{
    match e {
        TrayInteraction::DoubleClick => RoutedAction::ShowMainWindow,
        _ => RoutedAction::Noop,
    }
}

/// The window operations to perform for an action, in order.
pub fn window_ops_for(a: RoutedAction, window_present: bool) -> (ops: Vec<WindowOp>)
    ensures
        ops@ == window_ops_of(a, window_present),
{
    let mut ops: Vec<WindowOp> = Vec::new();
    match a {
        RoutedAction::ShowMainWindow => {
            if window_present {
                ops.push(WindowOp::Show);
                ops.push(WindowOp::SetFocus);
                ops.push(WindowOp::Center);
            }
        },
        RoutedAction::HideMainWindow => {
            if window_present {
                ops.push(WindowOp::Hide);
            }
        },
        RoutedAction::ExitProcess => {},
        RoutedAction::Noop => {},
    }
    proof {
        assert(ops@ =~= window_ops_of(a, window_present));
    }
    ops
}

/// The process exit to perform for an action, if any.
pub fn exit_request(a: RoutedAction) -> (r: Option<i32>)
    ensures
        r == exit_request_of(a),
{
    match a {
        RoutedAction::ExitProcess => Some(0i32),
        _ => None,
    }
}

/// A menu identifier other than `show`, `hide` and `quit` routes to no
/// observable action: no window operation and no process exit are requested,
/// whether or not the main window exists.
pub proof fn lemma_unknown_menu_id_is_noop(id: Seq<char>, window_present: bool)
    requires
        id != "show"@,
        id != "hide"@,
        id != "quit"@,
    ensures
        route_of_menu_id(id) == RoutedAction::Noop,
        window_ops_of(route_of_menu_id(id), window_present) == Seq::<WindowOp>::empty(),
        exit_request_of(route_of_menu_id(id)) is None,
{
}

/// Triggering `show` while no window named "main" exists requests no window
/// operation and no process exit: a silent no-op.
pub proof fn lemma_show_without_window_is_noop()
    ensures
        route_of_menu_id("show"@) == RoutedAction::ShowMainWindow,
        window_ops_of(RoutedAction::ShowMainWindow, false) == Seq::<WindowOp>::empty(),
        exit_request_of(RoutedAction::ShowMainWindow) is None,
{
}

/// Triggering `quit` requests a process exit with code 0. The router carries
/// no state, so this holds whatever events were routed before, and whether or
/// not the main window exists.
pub proof fn lemma_quit_exits_with_code_zero(window_present: bool)
    ensures
        route_of_menu_id("quit"@) == RoutedAction::ExitProcess,
        exit_request_of(RoutedAction::ExitProcess) == Some(0i32),
        window_ops_of(RoutedAction::ExitProcess, window_present) == Seq::<WindowOp>::empty(),
{
    lemma_menu_ids_distinct();
}

/// The three menu identifiers have pairwise distinct character sequences.
pub proof fn lemma_menu_ids_distinct()
    ensures
        "show"@ != "hide"@,
        "show"@ != "quit"@,
        "hide"@ != "quit"@,
{
    reveal_strlit("show");
    reveal_strlit("hide");
    reveal_strlit("quit");
    assert("show"@[0] != "hide"@[0]);
    assert("show"@[0] != "quit"@[0]);
    assert("hide"@[0] != "quit"@[0]);
}

/// A tray-icon double click routes to the same action as the `show` menu
/// item, so it requests the same window operations and the same (absent)
/// process exit; every other tray interaction is ignored.
pub proof fn lemma_double_click_acts_as_show()
    ensures
        route_of_tray_event(TrayInteraction::DoubleClick) == route_of_menu_id("show"@),
        forall|e: TrayInteraction|
            !(e is DoubleClick) ==> route_of_tray_event(e) == RoutedAction::Noop,
{
}

} // verus!
