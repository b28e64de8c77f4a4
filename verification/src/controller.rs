//! The tray/window controller: reacts to tray pointer events by toggling the
//! main window, to relaunch signals by bringing it to the foreground, and to
//! the remote quit command by ending the process. Also picks the backdrop
//! effect the shell applies to every window at startup.

use vstd::prelude::*;

use crate::events::{Action, TrayButton, TrayButtonState, TrayEvent, WindowVisibility};

verus! {

/// Whether a tray event is a press of the primary button: the one event the
/// controller reacts to.
pub open spec fn is_primary_down(e: TrayEvent) -> bool {
    e matches TrayEvent::Click {
        button: TrayButton::Primary,
        state: TrayButtonState::Down,
        ..
    }
}

/// The opposite visibility.
pub open spec fn toggled(v: WindowVisibility) -> WindowVisibility {
    match v {
        WindowVisibility::Visible => WindowVisibility::Hidden,
        WindowVisibility::Hidden => WindowVisibility::Visible,
    }
}

/// The visibility one tray event leaves the window in: a primary-button
/// press toggles it, every other tray event leaves it alone.
pub open spec fn tray_step(v: WindowVisibility, e: TrayEvent) -> WindowVisibility {
    if is_primary_down(e) {
        toggled(v)
    } else {
        v
    }
}

/// The commands one tray event makes the controller issue: on a
/// primary-button press, re-center the window over the tray, then hide it if
/// it was visible, else show it; on every other tray event, nothing.
pub open spec fn tray_commands(v: WindowVisibility, e: TrayEvent) -> Seq<Action> {
    if is_primary_down(e) {
        if v is Visible {
            seq![Action::MoveToTrayCenter, Action::Hide]
        } else {
            seq![Action::MoveToTrayCenter, Action::Show]
        }
    } else {
        Seq::empty()
    }
}

/// Reacts to one tray pointer event. On a primary-button press the window is
/// re-centered over the tray and its visibility toggled; every other tray
/// event is ignored. Returns the new visibility and the commands for the
/// host, in issue order.
pub fn match_tray_events(v: WindowVisibility, e: &TrayEvent) -> (r: (WindowVisibility, Vec<Action>))
    ensures
        r.0 == tray_step(v, *e),
        r.1@ == tray_commands(v, *e),
{
    match *e {
        TrayEvent::Click {
            button: TrayButton::Primary,
            state: TrayButtonState::Down,
            ..
        } => {
            let mut commands: Vec<Action> = Vec::new();
            commands.push(Action::MoveToTrayCenter);
            match v {
                WindowVisibility::Visible => {
                    commands.push(Action::Hide);
                    assert(commands@ =~= tray_commands(v, *e));
                    (WindowVisibility::Hidden, commands)
                },
                WindowVisibility::Hidden => {
                    commands.push(Action::Show);
                    assert(commands@ =~= tray_commands(v, *e));
                    (WindowVisibility::Visible, commands)
                },
            }
        },
        _ => {
            let commands: Vec<Action> = Vec::new();
            assert(commands@ =~= tray_commands(v, *e));
            (v, commands)
        },
    }
}

/// Reacts to a relaunch signal (a second process instance was attempted
/// while this one runs): bring the existing window to foreground focus
/// unconditionally. This is not a toggle: whatever the prior visibility, the
/// window ends visible and focused.
#[allow(unused_variables)]
pub fn show_window(v: WindowVisibility) -> (r: (WindowVisibility, Vec<Action>))
    ensures
        r.0 == WindowVisibility::Visible,
        r.1@ == seq![Action::SetFocus],
{
    let mut commands: Vec<Action> = Vec::new();
    commands.push(Action::SetFocus);
    assert(commands@ =~= seq![Action::SetFocus]);
    (WindowVisibility::Visible, commands)
}

/// The remote-invocable quit command: whatever the window's state, the one
/// command issued is a process exit with status 0.
#[allow(unused_variables)]
pub fn quit_app(v: WindowVisibility) -> (a: Action)
    ensures
        a == (Action::Exit { code: 0 }),
{
    Action::Exit { code: 0 }
}

/// Folds a sequence of tray events over the controller, front to back.
pub open spec fn tray_run(v: WindowVisibility, events: Seq<TrayEvent>) -> WindowVisibility
    decreases events.len(),
{
    if events.len() == 0 {
        v
    } else {
        tray_run(tray_step(v, events[0]), events.drop_first())
    }
}

/// Running one more event at the back of a sequence is one more step after
/// running the sequence.
proof fn lemma_tray_run_snoc(v: WindowVisibility, events: Seq<TrayEvent>, e: TrayEvent)
    ensures
        tray_run(v, events.push(e)) == tray_step(tray_run(v, events), e),
    decreases events.len(),
{
    if events.len() == 0 {
        assert(events.push(e)[0] == e);
        assert(events.push(e).drop_first() =~= Seq::<TrayEvent>::empty());
        assert(tray_run(v, events.push(e)) == tray_run(
            tray_step(v, e),
            Seq::<TrayEvent>::empty(),
        ));
    } else {
        assert(events.push(e)[0] == events[0]);
        assert(events.push(e).drop_first() =~= events.drop_first().push(e));
        lemma_tray_run_snoc(tray_step(v, events[0]), events.drop_first(), e);
    }
}

/// Runs a whole sequence of tray events, returning the final visibility.
pub fn run_tray_events(start: WindowVisibility, events: &Vec<TrayEvent>) -> (end: WindowVisibility)
    ensures
        end == tray_run(start, events@),
{
    let mut current = start;
    let mut i: usize = 0;
    while i < events.len()
        invariant
            i <= events.len(),
            current == tray_run(start, events@.take(i as int)),
        decreases events.len() - i,
    {
        let (next, _commands) = match_tray_events(current, &events[i]);
        proof {
            lemma_tray_run_snoc(start, events@.take(i as int), events@[i as int]);
            assert(events@.take(i + 1 as int) =~= events@.take(i as int).push(events@[i as int]));
        }
        current = next;
        i = i + 1;
    }
    proof {
        assert(events@.take(events@.len() as int) =~= events@);
    }
    current
}

/// Toggle parity, from any starting visibility: a run of primary-button
/// presses leaves the window where it started when their number is even, and
/// on the opposite visibility when it is odd.
proof fn lemma_toggle_parity_from(v: WindowVisibility, events: Seq<TrayEvent>)
    requires
        forall|i: int| 0 <= i < events.len() ==> is_primary_down(#[trigger] events[i]),
    ensures
        tray_run(v, events) == if events.len() % 2 == 0 {
            v
        } else {
            toggled(v)
        },
    decreases events.len(),
{
    if events.len() > 0 {
        let rest = events.drop_first();
        assert forall|i: int| 0 <= i < rest.len() implies is_primary_down(#[trigger] rest[i]) by {
            assert(rest[i] == events[i + 1]);
        }
        lemma_toggle_parity_from(toggled(v), rest);
    }
}

/// Toggle law: a run of primary-button presses over an initially hidden
/// window ends with the window visible exactly when the number of presses is
/// odd, and hidden when it is even.
pub proof fn lemma_toggle_parity(events: Seq<TrayEvent>)
    requires
        forall|i: int| 0 <= i < events.len() ==> is_primary_down(#[trigger] events[i]),
    ensures
        tray_run(WindowVisibility::Hidden, events) == if events.len() % 2 == 1 {
            WindowVisibility::Visible
        } else {
            WindowVisibility::Hidden
        },
{
    lemma_toggle_parity_from(WindowVisibility::Hidden, events);
}

/// Platform family the shell runs on, as far as the backdrop effect cares.
#[derive(Clone, Copy, Debug, PartialEq, Eq, Structural)]
pub enum Platform {
    MacLike,
    WindowsLike,
    OtherPlatform,
}

/// The translucent backdrop the compositor draws behind a window's content.
#[derive(Clone, Copy, Debug, PartialEq, Eq, Structural)]
pub enum BackdropEffect {
    /// The mac-like family's menu-material vibrancy.
    Vibrancy,
    /// The windows-like family's tinted blur.
    Blur,
}

/// Picks the backdrop applied to every open window at startup: vibrancy on
/// the mac-like family, blur on the windows-like family, and none anywhere
/// else — which the caller must treat as a fatal setup error.
pub fn backdrop_for(p: Platform) -> (r: Option<BackdropEffect>)
    ensures
        p is MacLike ==> r == Some(BackdropEffect::Vibrancy),
        p is WindowsLike ==> r == Some(BackdropEffect::Blur),
        p is OtherPlatform ==> r is None,
{
    match p {
        Platform::MacLike => Some(BackdropEffect::Vibrancy),
        Platform::WindowsLike => Some(BackdropEffect::Blur),
        Platform::OtherPlatform => None,
    }
}

} // verus!
