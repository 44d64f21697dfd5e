//! The event router: a stateless dispatcher from tray, menu and window
//! events to window-visibility actions, and the model of the main
//! window on which those actions act.
//!
//! The one place the controller overrides default shell behaviour is
//! the window close request: the close is vetoed and the window hidden,
//! so only the `quit` menu command or process-level termination ends
//! the process.

use vstd::prelude::*;
use vstd::string::StringExecFns;

verus! {

/// Which mouse button a tray-icon click used.
#[derive(Clone, Copy, Debug, PartialEq, Eq, Structural)]
pub enum MouseButtonKind {
    Primary,
    Secondary,
    Middle,
}

/// Whether the click event reports the press or the release phase.
#[derive(Clone, Copy, Debug, PartialEq, Eq, Structural)]
pub enum ClickPhase {
    Pressed,
    Released,
}

/// An inbound event, as delivered by the host runtime.
pub enum Event {
    /// An interaction with the tray icon itself.
    TrayClick { button: MouseButtonKind, phase: ClickPhase },
    /// A selection of a menu entry, carrying the entry's stable id.
    MenuCommand { id: String },
    /// The user asked the main window to close.
    WindowCloseRequested,
}

/// Mathematical model of an inbound event.
pub ghost enum EventModel {
    TrayClick { button: MouseButtonKind, phase: ClickPhase },
    MenuCommand { id: Seq<char> },
    WindowCloseRequested,
}

impl View for Event {
    type V = EventModel;

    open spec fn view(&self) -> EventModel {
        match self {
            Event::TrayClick { button, phase } => EventModel::TrayClick {
                button: *button,
                phase: *phase,
            },
            Event::MenuCommand { id } => EventModel::MenuCommand { id: id@ },
            Event::WindowCloseRequested => EventModel::WindowCloseRequested,
        }
    }
}

/// The action an event dispatches to. Each event maps to exactly one
/// action; events the controller does not react to map to `Ignore`.
#[derive(Clone, Copy, Debug, PartialEq, Eq, Structural)]
pub enum Action {
    /// Make the main window visible and give it input focus.
    ShowMainWindow,
    /// Hide the main window without destroying it.
    HideMainWindow,
    /// Terminate the process with the given exit code.
    QuitApplication { code: i32 },
    /// Emit a diagnostic line; no state changes.
    LogDiagnostic,
    /// Veto the pending window close, then hide the window.
    VetoCloseAndHide,
    /// No reaction.
    Ignore,
}

/// The main top-level window, once the host runtime has created it.
#[derive(Clone, Copy, Debug, PartialEq, Eq)]
pub struct WindowModel {
    pub visible: bool,
    pub focused: bool,
}

/// What the window-visibility actions act on: the main window (absent
/// until the host runtime creates it), whether the process is still
/// running, and the exit code it terminated with.
#[derive(Clone, Copy, Debug, PartialEq, Eq)]
pub struct DesktopState {
    pub window: Option<WindowModel>,
    pub running: bool,
    pub exit_code: Option<i32>,
}

/// The dispatch table. A primary-button release on the tray icon shows
/// the main window; a secondary-button release is logged only; every
/// other tray interaction is ignored. The menu ids `quit`, `show` and
/// `hide` map to their actions; any other id is ignored. A window close
/// request is vetoed and turned into a hide.
pub open spec fn route_spec(e: EventModel) -> Action {
    match e {
        EventModel::TrayClick { button, phase } => if button is Primary && phase is Released {
            Action::ShowMainWindow
        } else if button is Secondary && phase is Released {
            Action::LogDiagnostic
        } else {
            Action::Ignore
        },
        EventModel::MenuCommand { id } => if id == "quit"@ {
            Action::QuitApplication { code: 0 }
        } else if id == "show"@ {
            Action::ShowMainWindow
        } else if id == "hide"@ {
            Action::HideMainWindow
        } else {
            Action::Ignore
        },
        EventModel::WindowCloseRequested => Action::VetoCloseAndHide,
    }
}

/// The window after being shown: visible and holding input focus;
/// absent windows stay absent.
pub open spec fn shown_window(pre: Option<WindowModel>) -> Option<WindowModel> {
    match pre {
        Option::None => Option::None,
        Option::Some(_) => Option::Some(WindowModel { visible: true, focused: true }),
    }
}

/// The window after being hidden: invisible and without input focus,
/// but never destroyed; absent windows stay absent.
pub open spec fn hidden_window(pre: Option<WindowModel>) -> Option<WindowModel> {
    match pre {
        Option::None => Option::None,
        Option::Some(_) => Option::Some(WindowModel { visible: false, focused: false }),
    }
}

/// The desktop state after one action is applied once.
pub open spec fn apply_spec(pre: DesktopState, a: Action) -> DesktopState {
    match a {
        Action::ShowMainWindow => DesktopState {
            window: shown_window(pre.window),
            running: pre.running,
            exit_code: pre.exit_code,
        },
        Action::HideMainWindow => DesktopState {
            window: hidden_window(pre.window),
            running: pre.running,
            exit_code: pre.exit_code,
        },
        Action::QuitApplication { code } => DesktopState {
            window: pre.window,
            running: false,
            exit_code: Option::Some(code),
        },
        Action::LogDiagnostic => pre,
        Action::VetoCloseAndHide => DesktopState {
            window: hidden_window(pre.window),
            running: pre.running,
            exit_code: pre.exit_code,
        },
        Action::Ignore => pre,
    }
}

/// Routes one event to its action, per the dispatch table.
pub fn route_event(e: &Event) -> (a: Action)
    ensures
        a == route_spec(e@),
{
    match e {
        Event::TrayClick { button, phase } => match (button, phase) {
            (MouseButtonKind::Primary, ClickPhase::Released) => Action::ShowMainWindow,
            (MouseButtonKind::Secondary, ClickPhase::Released) => Action::LogDiagnostic,
            _ => Action::Ignore,
        },
        Event::MenuCommand { id } => {
            let quit_id = "quit".to_owned();
            let show_id = "show".to_owned();
            let hide_id = "hide".to_owned();
            if *id == quit_id {
                Action::QuitApplication { code: 0 }
            } else if *id == show_id {
                Action::ShowMainWindow
            } else if *id == hide_id {
                Action::HideMainWindow
            } else {
                Action::Ignore
            }
        },
        Event::WindowCloseRequested => Action::VetoCloseAndHide,
    }
}

/// Shows the main window and transfers input focus to it; before the
/// window exists the call is a silent no-op.
pub fn show_main_window(d: &mut DesktopState)
    ensures
        *final(d) == apply_spec(*old(d), Action::ShowMainWindow),
{
    match &mut d.window {
        Some(w) => {
            w.visible = true;
            w.focused = true;
        },
        None => {},
    }
}

/// Hides the main window without destroying it; before the window
/// exists the call is a silent no-op.
pub fn hide_main_window(d: &mut DesktopState)
    ensures
        *final(d) == apply_spec(*old(d), Action::HideMainWindow),
{
    match &mut d.window {
        Some(w) => {
            w.visible = false;
            w.focused = false;
        },
        None => {},
    }
}

/// Terminates the process with the given exit code; the window is left
/// as it was, the platform performs whatever cleanup it owns.
pub fn quit_application(d: &mut DesktopState, code: i32)
    ensures
        *final(d) == apply_spec(*old(d), Action::QuitApplication { code }),
{
    d.running = false;
    d.exit_code = Some(code);
}

/// Applies one action once to the desktop state.
pub fn apply_action(d: &mut DesktopState, a: &Action)
    ensures
        *final(d) == apply_spec(*old(d), *a),
{
    match a {
        Action::ShowMainWindow => show_main_window(d),
        Action::HideMainWindow => hide_main_window(d),
        Action::QuitApplication { code } => quit_application(d, *code),
        Action::LogDiagnostic => {},
        Action::VetoCloseAndHide => hide_main_window(d),
        Action::Ignore => {},
    }
}

/// Routes one event and applies the single action it dispatches to.
pub fn dispatch_event(d: &mut DesktopState, e: &Event) -> (a: Action)
    ensures
        a == route_spec(e@),
        *final(d) == apply_spec(*old(d), route_spec(e@)),
{
    let a = route_event(e);
    apply_action(d, &a);
    a
}

/// Handles one tray-icon interaction, as the host runtime reports it.
pub fn handle_tray_event(d: &mut DesktopState, button: MouseButtonKind, phase: ClickPhase) -> (a:
    Action)
    ensures
        a == route_spec(EventModel::TrayClick { button, phase }),
        *final(d) == apply_spec(*old(d), route_spec(EventModel::TrayClick { button, phase })),
{
    let e = Event::TrayClick { button, phase };
    dispatch_event(d, &e)
}

/// Close does not quit: a window close request leaves the process
/// running, keeps the window alive, and merely hides it.
pub proof fn lemma_close_does_not_quit(pre: DesktopState)
    ensures
        ({
            let post = apply_spec(pre, route_spec(EventModel::WindowCloseRequested));
            &&& post.running == pre.running
            &&& post.exit_code == pre.exit_code
            &&& (post.window is Some <==> pre.window is Some)
            &&& (pre.window is Some ==> !post.window->Some_0.visible)
        }),
{
}

/// Menu dispatch completeness: each of the three menu ids dispatches to
/// exactly its own action — the single action the router returns — and
/// every other id dispatches to nothing.
pub proof fn lemma_menu_dispatch_completeness(id: Seq<char>)
    ensures
        route_spec(EventModel::MenuCommand { id: "show"@ }) == Action::ShowMainWindow,
        route_spec(EventModel::MenuCommand { id: "hide"@ }) == Action::HideMainWindow,
        route_spec(EventModel::MenuCommand { id: "quit"@ }) == (Action::QuitApplication {
            code: 0,
        }),
        id != "show"@ && id != "hide"@ && id != "quit"@ ==> route_spec(
            EventModel::MenuCommand { id },
        ) == Action::Ignore,
{
    reveal_strlit("show");
    reveal_strlit("hide");
    reveal_strlit("quit");
    assert("show"@[0] != "quit"@[0]);
    assert("hide"@[0] != "quit"@[0]);
    assert("hide"@[0] != "show"@[0]);
}

/// No-window safety: before the main window exists, showing or hiding
/// it changes nothing and reports no error.
pub proof fn lemma_no_window_safety(pre: DesktopState)
    requires
        pre.window is None,
    ensures
        apply_spec(pre, Action::ShowMainWindow) == pre,
        apply_spec(pre, Action::HideMainWindow) == pre,
{
}

} // verus!
