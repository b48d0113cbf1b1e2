//! The tray event router: turns menu and icon events into a new router
//! state and the sequence of commands the host must perform, in order.
//!
//! The router itself performs no host call: it computes commands. The shell
//! around the library applies each command to the host framework (emit to
//! the UI channel, swap the tray icon, show or hide the window, exit), so an
//! absent window or a failing host call can never crash the routing logic.

use vstd::prelude::*;
use crate::payload::SystemTrayPayload;
use crate::tray_state::IconAsset;
use crate::tray_state::TrayState;
use crate::tray_state::spec_icon_request;
use crate::tray_state::spec_mode_after_toggles;
use crate::tray_state::spec_toggled;
use crate::tray_state::toggle_step;

verus! {

/// The known menu actions, parsed from the incoming menu id at the
/// boundary; any unknown id falls back to `Forward`.
#[derive(Clone, Copy, PartialEq, Eq, Structural, Debug)]
pub enum MenuAction {
    Quit,
    ToggleTrayIcon,
    ToggleVisibility,
    Forward,
}

/// Whether the main window exists, and if so whether it is visible.
/// Visibility is owned by the host windowing layer; the router is handed a
/// snapshot of it with each event.
#[derive(Clone, Copy, PartialEq, Eq, Structural, Debug)]
pub enum WindowState {
    Missing,
    Present { visible: bool },
}

/// Everything the router reads and updates: the tray mode and the window
/// snapshot.
#[derive(Clone, Copy, PartialEq, Eq, Structural, Debug)]
pub struct RouterState {
    pub mode: TrayState,
    pub window: WindowState,
}

/// A command for the host framework, to be performed in sequence order.
#[derive(Clone, Debug)]
pub enum TrayCommand {
    /// Emit a notification event to the UI layer carrying the payload.
    Notify { payload: SystemTrayPayload },
    /// Ask the host tray to display this icon asset.
    SetIcon { asset: IconAsset },
    /// Show the main window.
    ShowWindow,
    /// Hide the main window.
    HideWindow,
    /// Terminate the process immediately.
    Exit,
    /// Forward an application-defined event to the UI layer.
    Forward { payload: SystemTrayPayload },
}

/// Mathematical value of a `TrayCommand`.
pub enum CmdView {
    Notify(Seq<char>),
    SetIcon(IconAsset),
    ShowWindow,
    HideWindow,
    Exit,
    Forward(Seq<char>),
}

impl View for TrayCommand {
    type V = CmdView;

    open spec fn view(&self) -> CmdView {
        match self {
            TrayCommand::Notify { payload } => CmdView::Notify(payload@),
            TrayCommand::SetIcon { asset } => CmdView::SetIcon(*asset),
            TrayCommand::ShowWindow => CmdView::ShowWindow,
            TrayCommand::HideWindow => CmdView::HideWindow,
            TrayCommand::Exit => CmdView::Exit,
            TrayCommand::Forward { payload } => CmdView::Forward(payload@),
        }
    }
}

/// The views of a command sequence, in order.
pub open spec fn cmds_view(cs: Seq<TrayCommand>) -> Seq<CmdView> {
    cs.map_values(|c: TrayCommand| c@)
}

/// The action a menu id names.
pub open spec fn spec_menu_action(id: Seq<char>) -> MenuAction {
    if id == "quit"@ {
        MenuAction::Quit
    } else if id == "toggle-tray-icon"@ {
        MenuAction::ToggleTrayIcon
    } else if id == "toggle-visibility"@ {
        MenuAction::ToggleVisibility
    } else {
        MenuAction::Forward
    }
}

/// String equality, decided through owned copies so the result is pinned to
/// the views.
fn str_eq(a: &str, b: &str) -> (r: bool)
    ensures
        r == (a@ == b@),
{
    let oa: String = a.to_owned();
    let ob: String = b.to_owned();
    oa == ob
}

/// Parses a menu id into the action it names; unknown ids parse to
/// `Forward` and are never an error.
pub fn parse_menu_action(id: &str) -> (a: MenuAction)
    ensures
        a == spec_menu_action(id@),
{
    if str_eq(id, "quit") {
        MenuAction::Quit
    } else if str_eq(id, "toggle-tray-icon") {
        MenuAction::ToggleTrayIcon
    } else if str_eq(id, "toggle-visibility") {
        MenuAction::ToggleVisibility
    } else {
        MenuAction::Forward
    }
}

/// The router state after a menu event with this id. When the main window
/// is missing the event is skipped whole; otherwise a toggle id toggles the
/// mode and the visibility id flips the window snapshot.
pub open spec fn spec_menu_next(s: RouterState, id: Seq<char>) -> RouterState {
    match s.window {
        WindowState::Missing => s,
        WindowState::Present { visible } => match spec_menu_action(id) {
            MenuAction::ToggleTrayIcon => RouterState { mode: spec_toggled(s.mode), ..s },
            MenuAction::ToggleVisibility => RouterState {
                window: WindowState::Present { visible: !visible },
                ..s
            },
            _ => s,
        },
    }
}

/// The commands a menu event with this id produces, in order. Every menu
/// event first notifies the UI layer with the id; the id-specific commands
/// follow. A missing main window skips the event entirely.
pub open spec fn spec_menu_cmds(s: RouterState, id: Seq<char>) -> Seq<CmdView> {
    match s.window {
        WindowState::Missing => Seq::empty(),
        WindowState::Present { visible } => {
            let notify = CmdView::Notify(id);
            match spec_menu_action(id) {
                MenuAction::Quit => seq![notify, CmdView::Exit],
                MenuAction::ToggleTrayIcon => match spec_icon_request(s.mode) {
                    Some(asset) => seq![notify, CmdView::SetIcon(asset)],
                    None => seq![notify],
                },
                MenuAction::ToggleVisibility => if visible {
                    seq![notify, CmdView::HideWindow]
                } else {
                    seq![notify, CmdView::ShowWindow]
                },
                MenuAction::Forward => seq![notify, CmdView::Forward(id)],
            }
        },
    }
}

/// Routes one menu event: returns the new router state and the commands
/// the host must perform, exactly as `spec_menu_next` and `spec_menu_cmds`
/// give them.
pub fn handle_menu_event(s: RouterState, id: &str) -> (r: (RouterState, Vec<TrayCommand>))
    ensures
        r.0 == spec_menu_next(s, id@),
        cmds_view(r.1@) == spec_menu_cmds(s, id@),
{
    let mut cmds: Vec<TrayCommand> = Vec::new();
    match s.window {
        WindowState::Missing => {
            proof {
                assert(cmds_view(cmds@) =~= spec_menu_cmds(s, id@));
            }
            (s, cmds)
        },
        WindowState::Present { visible } => {
            cmds.push(TrayCommand::Notify { payload: SystemTrayPayload::new(id) });
            let next = match parse_menu_action(id) {
                MenuAction::Quit => {
                    cmds.push(TrayCommand::Exit);
                    s
                },
                MenuAction::ToggleTrayIcon => {
                    let (mode, request) = toggle_step(s.mode);
                    match request {
                        Some(asset) => cmds.push(TrayCommand::SetIcon { asset }),
                        None => (),
                    }
                    RouterState { mode, ..s }
                },
                MenuAction::ToggleVisibility => {
                    if visible {
                        cmds.push(TrayCommand::HideWindow);
                    } else {
                        cmds.push(TrayCommand::ShowWindow);
                    }
                    RouterState { window: WindowState::Present { visible: !visible }, ..s }
                },
                MenuAction::Forward => {
                    cmds.push(TrayCommand::Forward { payload: SystemTrayPayload::new(id) });
                    s
                },
            };
            proof {
                assert(cmds_view(cmds@) =~= spec_menu_cmds(s, id@));
            }
            (next, cmds)
        },
    }
}

/// The kinds of direct interaction with the tray icon itself.
#[derive(Clone, Copy, PartialEq, Eq, Structural, Debug)]
pub enum IconEventKind {
    Click,
    DoubleClick,
    Other,
}

/// The commands an icon event produces: a click notifies the UI layer with
/// the fixed "left-click" message; a double click is only logged by the
/// shell and every other kind is ignored, so neither produces a command. A
/// missing main window skips the event.
pub open spec fn spec_icon_cmds(w: WindowState, kind: IconEventKind) -> Seq<CmdView> {
    if w is Present && kind is Click {
        seq![CmdView::Notify("left-click"@)]
    } else {
        Seq::empty()
    }
}

/// Routes one icon event; the router state never changes.
pub fn handle_icon_event(w: WindowState, kind: IconEventKind) -> (r: Vec<TrayCommand>)
    ensures
        cmds_view(r@) == spec_icon_cmds(w, kind),
{
    let mut cmds: Vec<TrayCommand> = Vec::new();
    match (w, kind) {
        (WindowState::Present { .. }, IconEventKind::Click) => {
            cmds.push(TrayCommand::Notify { payload: SystemTrayPayload::new("left-click") });
        },
        _ => (),
    }
    proof {
        assert(cmds_view(cmds@) =~= spec_icon_cmds(w, kind));
    }
    cmds
}

/// One event delivered by the host tray: a menu activation carrying its id,
/// or a direct interaction with the icon.
#[derive(Clone, Debug)]
pub enum TrayEvent {
    Menu { id: String },
    Icon { kind: IconEventKind },
}

/// Mathematical value of a `TrayEvent`.
pub enum EventView {
    Menu(Seq<char>),
    Icon(IconEventKind),
}

impl View for TrayEvent {
    type V = EventView;

    open spec fn view(&self) -> EventView {
        match self {
            TrayEvent::Menu { id } => EventView::Menu(id@),
            TrayEvent::Icon { kind } => EventView::Icon(*kind),
        }
    }
}

/// The views of an event sequence, in order.
pub open spec fn events_view(es: Seq<TrayEvent>) -> Seq<EventView> {
    es.map_values(|e: TrayEvent| e@)
}

/// The router state after one event.
pub open spec fn spec_event_next(s: RouterState, e: EventView) -> RouterState {
    match e {
        EventView::Menu(id) => spec_menu_next(s, id),
        EventView::Icon(_) => s,
    }
}

/// The commands one event produces.
pub open spec fn spec_event_cmds(s: RouterState, e: EventView) -> Seq<CmdView> {
    match e {
        EventView::Menu(id) => spec_menu_cmds(s, id),
        EventView::Icon(kind) => spec_icon_cmds(s.window, kind),
    }
}

/// Whether this event terminates the process: a quit menu event that is not
/// skipped for want of a window.
pub open spec fn spec_quits(s: RouterState, e: EventView) -> bool {
    &&& e matches EventView::Menu(id)
    &&& s.window is Present
    &&& spec_menu_action(id) is Quit
}

/// The final state and the commands of a whole run of events, delivered in
/// order. Process termination is immediate: events after a quit are never
/// processed and contribute no command.
pub open spec fn spec_run(s: RouterState, es: Seq<EventView>) -> (RouterState, Seq<CmdView>)
    decreases es.len(),
{
    if es.len() == 0 {
        (s, Seq::empty())
    } else {
        let head_cmds = spec_event_cmds(s, es[0]);
        let s1 = spec_event_next(s, es[0]);
        if spec_quits(s, es[0]) {
            (s1, head_cmds)
        } else {
            let rest = spec_run(s1, es.skip(1));
            (rest.0, head_cmds + rest.1)
        }
    }
}

/// Whether this event, delivered in this state, terminates the process.
pub fn event_quits(s: RouterState, e: &TrayEvent) -> (r: bool)
    ensures
        r == spec_quits(s, e@),
{
    match e {
        TrayEvent::Menu { id } => match s.window {
            WindowState::Present { .. } => parse_menu_action(id.as_str()) == MenuAction::Quit,
            WindowState::Missing => false,
        },
        TrayEvent::Icon { .. } => false,
    }
}

/// Routes one event of either kind.
pub fn handle_event(s: RouterState, e: &TrayEvent) -> (r: (RouterState, Vec<TrayCommand>))
    ensures
        r.0 == spec_event_next(s, e@),
        cmds_view(r.1@) == spec_event_cmds(s, e@),
{
    match e {
        TrayEvent::Menu { id } => handle_menu_event(s, id.as_str()),
        TrayEvent::Icon { kind } => (s, handle_icon_event(s.window, *kind)),
    }
}

/// Runs a whole sequence of events against an initial state: returns the
/// final router state and every command produced, in delivery order. The
/// run stops at the first quit event; later events are not processed.
pub fn run_events(init: RouterState, events: &Vec<TrayEvent>) -> (r: (RouterState, Vec<TrayCommand>))
    ensures
        r.0 == spec_run(init, events_view(events@)).0,
        cmds_view(r.1@) == spec_run(init, events_view(events@)).1,
{
    let ghost all = events_view(events@);
    let mut state = init;
    let mut cmds: Vec<TrayCommand> = Vec::new();
    let mut quit = false;
    let mut i: usize = 0;
    proof {
        assert(cmds_view(cmds@) =~= Seq::<CmdView>::empty());
        assert(all.skip(0) =~= all);
    }
    while i < events.len() && !quit
        invariant
            0 <= i <= events@.len(),
            all == events_view(events@),
            quit ==> spec_run(init, all) == (state, cmds_view(cmds@)),
            !quit ==> spec_run(init, all) == (
                spec_run(state, all.skip(i as int)).0,
                cmds_view(cmds@) + spec_run(state, all.skip(i as int)).1,
            ),
        decreases events@.len() - i,
    {
        let ghost pre_state = state;
        let ghost pre_cmds = cmds@;
        let ghost rest = all.skip(i as int);
        let event = &events[i];
        let (next, mut new_cmds) = handle_event(state, event);
        let ghost new_views = cmds_view(new_cmds@);
        if event_quits(state, event) {
            quit = true;
        }
        state = next;
        cmds.append(&mut new_cmds);
        proof {
            assert(rest[0] == all[i as int]);
            assert(all[i as int] == events@[i as int]@);
            assert(rest.skip(1) =~= all.skip(i as int + 1));
            assert(cmds_view(cmds@) =~= cmds_view(pre_cmds) + new_views);
            if quit {
                assert(spec_run(pre_state, rest) == (next, new_views));
                assert(cmds_view(pre_cmds) + new_views =~= cmds_view(cmds@));
            } else {
                assert(spec_run(pre_state, rest) == (
                    spec_run(next, rest.skip(1)).0,
                    new_views + spec_run(next, rest.skip(1)).1,
                ));
                assert(cmds_view(pre_cmds) + (new_views + spec_run(next, rest.skip(1)).1) =~= cmds_view(
                    cmds@,
                ) + spec_run(next, all.skip(i as int + 1)).1);
            }
        }
        i = i + 1;
    }
    proof {
        if !quit {
            assert(all.skip(i as int) =~= Seq::<EventView>::empty());
        }
    }
    (state, cmds)
}

/// Law: every menu event that is not skipped for want of a window produces
/// exactly one UI notification, it carries the event's id, and it comes
/// before every id-specific command.
pub proof fn lemma_notify_once_first(s: RouterState, id: Seq<char>)
    requires
        s.window is Present,
    ensures
        spec_menu_cmds(s, id).len() >= 1,
        spec_menu_cmds(s, id)[0] == CmdView::Notify(id),
        forall|i: int|
            1 <= i < spec_menu_cmds(s, id).len() ==> !(spec_menu_cmds(s, id)[i] is Notify),
{
}

/// Law: toggling visibility is a pure flip. One event keeps the mode,
/// flips the window snapshot, and beyond the notification issues exactly
/// one host call, the hide or show that matches the old visibility; a
/// second event restores the original state.
pub proof fn lemma_visibility_flip(s: RouterState)
    requires
        s.window is Present,
    ensures
        spec_menu_next(s, "toggle-visibility"@) == (RouterState {
            window: WindowState::Present { visible: !s.window->visible },
            ..s
        }),
        spec_menu_next(spec_menu_next(s, "toggle-visibility"@), "toggle-visibility"@) == s,
        spec_menu_cmds(s, "toggle-visibility"@) == seq![
            CmdView::Notify("toggle-visibility"@),
            if s.window->visible {
                CmdView::HideWindow
            } else {
                CmdView::ShowWindow
            },
        ],
{
    reveal_strlit("toggle-visibility");
    reveal_strlit("toggle-tray-icon");
    reveal_strlit("quit");
    assert("toggle-visibility"@.len() == 17 && "toggle-tray-icon"@.len() == 16 && "quit"@.len()
        == 4);
    assert("toggle-visibility"@ != "quit"@);
    assert("toggle-visibility"@ != "toggle-tray-icon"@);
    assert(spec_menu_action("toggle-visibility"@) is ToggleVisibility);
    assert(spec_menu_cmds(s, "toggle-visibility"@) =~= seq![
        CmdView::Notify("toggle-visibility"@),
        if s.window->visible {
            CmdView::HideWindow
        } else {
            CmdView::ShowWindow
        },
    ]);
}

/// Law: from `NotPlaying`, two toggle menu events return the mode to
/// `NotPlaying` and issue exactly two icon-asset swap requests, first to
/// the active and then to the inactive asset.
pub proof fn lemma_double_toggle(s: RouterState)
    requires
        s.window is Present,
        s.mode == TrayState::NotPlaying,
    ensures
        ({
            let id = "toggle-tray-icon"@;
            let run = spec_run(s, seq![EventView::Menu(id), EventView::Menu(id)]);
            &&& run.0 == s
            &&& run.1 == seq![
                CmdView::Notify(id),
                CmdView::SetIcon(IconAsset::Active),
                CmdView::Notify(id),
                CmdView::SetIcon(IconAsset::Inactive),
            ]
        }),
{
    reveal_strlit("toggle-visibility");
    reveal_strlit("toggle-tray-icon");
    reveal_strlit("quit");
    reveal_with_fuel(spec_run, 3);
    let id = "toggle-tray-icon"@;
    assert("toggle-tray-icon"@.len() == 16 && "quit"@.len() == 4);
    assert(id != "quit"@);
    assert(spec_menu_action(id) is ToggleTrayIcon);
    let evs = seq![EventView::Menu(id), EventView::Menu(id)];
    assert(evs[0] == EventView::Menu(id) && evs[1] == EventView::Menu(id));
    let s1 = spec_event_next(s, evs[0]);
    assert(s1.mode == TrayState::Playing && s1.window == s.window);
    assert(evs.skip(1) =~= seq![EventView::Menu(id)]);
    assert(seq![EventView::Menu(id)].skip(1) =~= Seq::<EventView>::empty());
    let run = spec_run(s, evs);
    assert(run.0 == s);
    assert(run.1 =~= seq![
        CmdView::Notify(id),
        CmdView::SetIcon(IconAsset::Active),
        CmdView::Notify(id),
        CmdView::SetIcon(IconAsset::Inactive),
    ]);
}

/// A sequence of `n` toggle menu events.
pub open spec fn spec_toggle_events(n: nat) -> Seq<EventView> {
    Seq::new(n, |i: int| EventView::Menu("toggle-tray-icon"@))
}

/// Law: a run of `n` toggle menu events toggles the mode exactly `n` times
/// and leaves the window alone, so from a non-`Paused` mode the run
/// alternates strictly between `NotPlaying` and `Playing` (see
/// `lemma_toggle_alternates` and `lemma_toggles_serialize`).
pub proof fn lemma_toggle_run(s: RouterState, n: nat)
    requires
        s.window is Present,
    ensures
        spec_run(s, spec_toggle_events(n)).0.mode == spec_mode_after_toggles(s.mode, n),
        spec_run(s, spec_toggle_events(n)).0.window == s.window,
    decreases n,
{
    reveal_strlit("toggle-tray-icon");
    reveal_strlit("quit");
    if n == 0 {
        assert(spec_toggle_events(0) =~= Seq::<EventView>::empty());
    } else {
        let evs = spec_toggle_events(n);
        assert(evs[0] == EventView::Menu("toggle-tray-icon"@));
        assert("toggle-tray-icon"@.len() == 16 && "quit"@.len() == 4);
        assert(spec_menu_action("toggle-tray-icon"@) is ToggleTrayIcon);
        assert(!spec_quits(s, evs[0]));
        let s1 = spec_event_next(s, evs[0]);
        assert(s1.mode == spec_toggled(s.mode) && s1.window == s.window);
        assert(evs.skip(1) =~= spec_toggle_events((n - 1) as nat));
        lemma_toggle_run(s1, (n - 1) as nat);
        crate::tray_state::lemma_toggles_shift(s.mode, n);
    }
}

/// Law: a quit event terminates the run. Whatever events follow it, they
/// are never processed and contribute no command; the quit event itself
/// produces the notification and the exit command, nothing else.
pub proof fn lemma_quit_halts(s: RouterState, rest: Seq<EventView>)
    requires
        s.window is Present,
    ensures
        ({
            let quit_ev = EventView::Menu("quit"@);
            &&& spec_run(s, seq![quit_ev] + rest) == spec_run(s, seq![quit_ev])
            &&& spec_run(s, seq![quit_ev]).0 == s
            &&& spec_run(s, seq![quit_ev]).1 == seq![CmdView::Notify("quit"@), CmdView::Exit]
        }),
{
    let quit_ev = EventView::Menu("quit"@);
    let with_rest = seq![quit_ev] + rest;
    assert(with_rest.len() >= 1);
    assert(with_rest[0] == quit_ev);
    assert(spec_quits(s, quit_ev));
    assert(spec_run(s, with_rest) == (spec_event_next(s, quit_ev), spec_event_cmds(s, quit_ev)));
    assert(spec_run(s, seq![quit_ev]) == (spec_event_next(s, quit_ev), spec_event_cmds(s, quit_ev)));
    assert(spec_menu_cmds(s, "quit"@) =~= seq![CmdView::Notify("quit"@), CmdView::Exit]);
}

} // verus!
