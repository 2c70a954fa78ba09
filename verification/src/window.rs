//! The window-lifecycle state machine.
//!
//! One event loop dispatches two hooks: a startup hook that runs once and
//! may show the main window after a fixed delay, and a window-event hook
//! that intercepts close requests so that the window is hidden rather than
//! destroyed.  The process keeps running until an explicit quit action,
//! which bypasses these hooks entirely.

use vstd::prelude::*;

verus! {

/// Whether the window is currently shown on screen.
#[derive(Clone, Copy, PartialEq, Eq, Structural, Debug)]
pub enum Visibility {
    Hidden,
    Visible,
}

/// The closed set of window-level event kinds the event hook can receive.
/// Exactly one of them, `CloseRequested`, is handled specially; every
/// other kind is a no-op for the shell.
#[derive(Clone, Copy, PartialEq, Eq, Structural, Debug)]
pub enum WindowEventKind {
    CloseRequested,
    Resized,
    Moved,
    Destroyed,
    Focused,
    ScaleFactorChanged,
    DragDrop,
    ThemeChanged,
}

/// The observable state of the shell: the main window's visibility and
/// whether the process is still running.
#[derive(Clone, Copy, PartialEq, Eq, Structural, Debug)]
pub struct Shell {
    pub visibility: Visibility,
    pub running: bool,
}

/// What one window event does to the shell state: a close request hides
/// the window; every other event kind leaves the state unchanged.  No
/// window event ever stops the process or shows a hidden window.
pub open spec fn step_spec(s: Shell, event: WindowEventKind) -> Shell {
    match event {
        WindowEventKind::CloseRequested => Shell {
            visibility: Visibility::Hidden,
            running: s.running,
        },
        _ => s,
    }
}

/// Whether the default action of a window event (for a close request:
/// destroying the window) must be suppressed.
pub open spec fn suppress_spec(event: WindowEventKind) -> bool {
    event is CloseRequested
}

/// The shell state after a whole sequence of window events.
pub open spec fn run_spec(s: Shell, events: Seq<WindowEventKind>) -> Shell
    decreases events.len(),
{
    if events.len() == 0 {
        s
    } else {
        run_spec(step_spec(s, events[0]), events.drop_first())
    }
}

/// Milliseconds the startup hook waits before first showing the main
/// window, so that the first paint is already styled.
pub const SETUP_DELAY_MS: u64 = 50;

impl Shell {
    /// A freshly launched shell: the main window starts hidden and the
    /// process is running.
    pub fn new() -> (s: Shell)
        ensures
            s.visibility == Visibility::Hidden,
            s.running,
    {
        Shell { visibility: Visibility::Hidden, running: true }
    }

    /// An explicit show call: the window becomes visible.  This is the
    /// startup hook's path, and the way a hidden window is brought back
    /// later.
    pub fn show_window(&mut self)
        ensures
            final(self).visibility == Visibility::Visible,
            final(self).running == old(self).running,
    {
        self.visibility = Visibility::Visible;
    }

    /// An explicit hide call: the window is removed from view without
    /// terminating the process.
    pub fn hide_window(&mut self)
        ensures
            final(self).visibility == Visibility::Hidden,
            final(self).running == old(self).running,
    {
        self.visibility = Visibility::Hidden;
    }

    /// The startup hook, run exactly once by the event loop.  Given
    /// whether a window registered under the name "main" exists: if it
    /// does, the window is to be shown after the fixed delay, whose
    /// length is returned; if it does not, nothing happens and no error
    /// is raised.
    pub fn on_setup(&mut self, main_window_present: bool) -> (delay_ms: Option<u64>)
        ensures
            main_window_present ==> {
                &&& final(self).visibility == Visibility::Visible
                &&& delay_ms == Some(SETUP_DELAY_MS)
            },
            !main_window_present ==> {
                &&& *final(self) == *old(self)
                &&& delay_ms is None
            },
            final(self).running == old(self).running,
    {
        if main_window_present {
            self.show_window();
            Some(SETUP_DELAY_MS)
        } else {
            None
        }
    }

    /// The window-event hook.  On a close request the window becomes
    /// hidden and the default close action must be suppressed, so the
    /// window is hidden rather than destroyed; every other event kind
    /// changes nothing.  The process keeps running in every case.
    pub fn on_window_event(&mut self, event: &WindowEventKind) -> (suppress_close: bool)
        ensures
            *final(self) == step_spec(*old(self), *event),
            suppress_close == suppress_spec(*event),
    {
        match event {
            WindowEventKind::CloseRequested => {
                self.visibility = Visibility::Hidden;
                true
            },
            _ => false,
        }
    }
}

/// A close request always leaves the window hidden, never stops the
/// process, and demands that the default close action — destroying the
/// window — be suppressed.
pub proof fn lemma_close_request_outcome(s: Shell)
    ensures
        step_spec(s, WindowEventKind::CloseRequested).visibility == Visibility::Hidden,
        step_spec(s, WindowEventKind::CloseRequested).running == s.running,
        suppress_spec(WindowEventKind::CloseRequested),
{
}

/// No sequence of window events ever stops the process: closing a window
/// never terminates the shell.  True termination comes only from an
/// explicit quit action, which bypasses the event hook entirely.
pub proof fn lemma_events_keep_running(s: Shell, events: Seq<WindowEventKind>)
    ensures
        run_spec(s, events).running == s.running,
    decreases events.len(),
{
    if events.len() > 0 {
        lemma_events_keep_running(step_spec(s, events[0]), events.drop_first());
    }
}

/// Hide-on-close is idempotent: any nonempty run of close requests in
/// sequence leaves the shell exactly as a single close request does — an
/// already hidden window simply remains hidden, without error.
pub proof fn lemma_repeated_close_requests(s: Shell, events: Seq<WindowEventKind>)
    requires
        events.len() >= 1,
        forall|i: int| 0 <= i < events.len() ==> events[i] is CloseRequested,
    ensures
        run_spec(s, events) == step_spec(s, WindowEventKind::CloseRequested),
    decreases events.len(),
{
    assert(events[0] == WindowEventKind::CloseRequested);
    if events.len() == 1 {
        assert(run_spec(step_spec(s, events[0]), events.drop_first())
            == step_spec(s, events[0]));
    } else {
        lemma_repeated_close_requests(step_spec(s, events[0]), events.drop_first());
    }
}

/// Window events alone never make the window visible: the only
/// Hidden→Visible transition a shell can take is the startup hook's
/// show, so once setup is over that transition is never taken again.
pub proof fn lemma_events_never_show(s: Shell, events: Seq<WindowEventKind>)
    ensures
        run_spec(s, events).visibility == Visibility::Visible
            ==> s.visibility == Visibility::Visible,
    decreases events.len(),
{
    if events.len() > 0 {
        lemma_events_never_show(step_spec(s, events[0]), events.drop_first());
    }
}

} // verus!
