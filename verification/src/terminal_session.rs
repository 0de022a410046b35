//! The modes of a terminal session: which are asked for, which are on, and
//! in which order they are switched on and off.

use vstd::prelude::*;

verus! {

/// The modes that a session is asked to switch on besides raw mode.
#[derive(Debug, Clone, Copy, PartialEq, Eq, Structural)]
pub struct SessionOptions {
    /// The alternate screen.
    pub alternate_screen: bool,
    /// Mouse capture.
    pub mouse_capture: bool,
    /// Bracketed paste.
    pub bracketed_paste: bool,
    /// Focus change events.
    pub focus_events: bool,
}

impl Default for SessionOptions {
    fn default() -> (o: SessionOptions)
        ensures
            o == (SessionOptions {
                alternate_screen: false,
                mouse_capture: false,
                bracketed_paste: false,
                focus_events: false,
            }),
    {
        SessionOptions {
            alternate_screen: false,
            mouse_capture: false,
            bracketed_paste: false,
            focus_events: false,
        }
    }
}

/// One thing that is done to the terminal.
#[derive(Debug, Clone, Copy, PartialEq, Eq, Structural)]
pub enum SessionStep {
    EnableRawMode,
    EnterAlternateScreen,
    EnableMouseCapture,
    EnableBracketedPaste,
    EnableFocusChange,
    DisableFocusChange,
    DisableBracketedPaste,
    DisableMouseCapture,
    ShowCursor,
    LeaveAlternateScreen,
    DisableRawMode,
    Flush,
}

/// The step where the condition holds, else nothing.
pub open spec fn step_if(cond: bool, step: SessionStep) -> Seq<SessionStep> {
    if cond {
        seq![step]
    } else {
        Seq::empty()
    }
}

/// The steps that start a session: raw mode, then each mode asked for, in
/// the order alternate screen, mouse, bracketed paste, focus events.
pub open spec fn startup_plan(o: SessionOptions) -> Seq<SessionStep> {
    seq![SessionStep::EnableRawMode] + step_if(
        o.alternate_screen,
        SessionStep::EnterAlternateScreen,
    ) + step_if(o.mouse_capture, SessionStep::EnableMouseCapture) + step_if(
        o.bracketed_paste,
        SessionStep::EnableBracketedPaste,
    ) + step_if(o.focus_events, SessionStep::EnableFocusChange)
}

/// A terminal session: the modes asked for, and the modes that are on.
#[derive(Debug, Clone, Copy, PartialEq, Eq, Structural)]
pub struct TerminalSession {
    options: SessionOptions,
    alternate_screen_enabled: bool,
    mouse_enabled: bool,
    bracketed_paste_enabled: bool,
    focus_events_enabled: bool,
}

impl TerminalSession {
    /// The modes asked for.
    pub closed spec fn spec_options(&self) -> SessionOptions {
        self.options
    }

    /// The modes that are on, in the fields of the options.
    pub closed spec fn enabled(&self) -> SessionOptions {
        SessionOptions {
            alternate_screen: self.alternate_screen_enabled,
            mouse_capture: self.mouse_enabled,
            bracketed_paste: self.bracketed_paste_enabled,
            focus_events: self.focus_events_enabled,
        }
    }

    /// The modes that are on after a step was done to the terminal.
    pub open spec fn after_step(e: SessionOptions, step: SessionStep) -> SessionOptions {
        match step {
            SessionStep::EnterAlternateScreen => SessionOptions { alternate_screen: true, ..e },
            SessionStep::EnableMouseCapture => SessionOptions { mouse_capture: true, ..e },
            SessionStep::EnableBracketedPaste => SessionOptions { bracketed_paste: true, ..e },
            SessionStep::EnableFocusChange => SessionOptions { focus_events: true, ..e },
            SessionStep::LeaveAlternateScreen => SessionOptions { alternate_screen: false, ..e },
            SessionStep::DisableMouseCapture => SessionOptions { mouse_capture: false, ..e },
            SessionStep::DisableBracketedPaste => SessionOptions { bracketed_paste: false, ..e },
            SessionStep::DisableFocusChange => SessionOptions { focus_events: false, ..e },
            _ => e,
        }
    }

    /// The steps that end a session in which the given modes are on: the
    /// modes go off in the reverse of the order in which they went on, the
    /// cursor is shown before the alternate screen is left, raw mode goes
    /// off last, and the output is flushed.
    pub open spec fn cleanup_plan(e: SessionOptions) -> Seq<SessionStep> {
        step_if(e.focus_events, SessionStep::DisableFocusChange) + step_if(
            e.bracketed_paste,
            SessionStep::DisableBracketedPaste,
        ) + step_if(e.mouse_capture, SessionStep::DisableMouseCapture)
            + seq![SessionStep::ShowCursor] + step_if(
            e.alternate_screen,
            SessionStep::LeaveAlternateScreen,
        ) + seq![SessionStep::DisableRawMode, SessionStep::Flush]
    }

    /// A session for the given options in which no mode is on yet.
    pub fn with_options(options: SessionOptions) -> (s: TerminalSession)
        ensures
            s.spec_options() == options,
            s.enabled() == (SessionOptions {
                alternate_screen: false,
                mouse_capture: false,
                bracketed_paste: false,
                focus_events: false,
            }),
    {
        TerminalSession {
            options,
            alternate_screen_enabled: false,
            mouse_enabled: false,
            bracketed_paste_enabled: false,
            focus_events_enabled: false,
        }
    }

    /// A session that asks for raw mode only.
    pub fn minimal() -> (s: TerminalSession)
        ensures
            s.spec_options() == (SessionOptions {
                alternate_screen: false,
                mouse_capture: false,
                bracketed_paste: false,
                focus_events: false,
            }),
            s.enabled() == s.spec_options(),
    {
        TerminalSession::with_options(SessionOptions::default())
    }

    /// The modes asked for.
    pub fn options(&self) -> (o: &SessionOptions)
        ensures
            *o == self.spec_options(),
    {
        &self.options
    }

    /// The steps that start the session, in order.
    pub fn startup_steps(&self) -> (steps: Vec<SessionStep>)
        ensures
            steps@ == startup_plan(self.spec_options()),
    {
        let mut steps: Vec<SessionStep> = Vec::new();
        steps.push(SessionStep::EnableRawMode);
        if self.options.alternate_screen {
            steps.push(SessionStep::EnterAlternateScreen);
        }
        if self.options.mouse_capture {
            steps.push(SessionStep::EnableMouseCapture);
        }
        if self.options.bracketed_paste {
            steps.push(SessionStep::EnableBracketedPaste);
        }
        if self.options.focus_events {
            steps.push(SessionStep::EnableFocusChange);
        }
        assert(steps@ =~= startup_plan(self.spec_options()));
        steps
    }

    /// Takes note that a step was done to the terminal.
    pub fn record(&mut self, step: SessionStep)
        ensures
            final(self).spec_options() == old(self).spec_options(),
            final(self).enabled() == Self::after_step(old(self).enabled(), step),
    {
        match step {
            SessionStep::EnterAlternateScreen => {
                self.alternate_screen_enabled = true;
            },
            SessionStep::EnableMouseCapture => {
                self.mouse_enabled = true;
            },
            SessionStep::EnableBracketedPaste => {
                self.bracketed_paste_enabled = true;
            },
            SessionStep::EnableFocusChange => {
                self.focus_events_enabled = true;
            },
            SessionStep::LeaveAlternateScreen => {
                self.alternate_screen_enabled = false;
            },
            SessionStep::DisableMouseCapture => {
                self.mouse_enabled = false;
            },
            SessionStep::DisableBracketedPaste => {
                self.bracketed_paste_enabled = false;
            },
            SessionStep::DisableFocusChange => {
                self.focus_events_enabled = false;
            },
            _ => {},
        }
    }

    /// The steps that end the session, in order. Afterwards no mode counts
    /// as on.
    pub fn cleanup(&mut self) -> (steps: Vec<SessionStep>)
        ensures
            steps@ == Self::cleanup_plan(old(self).enabled()),
            final(self).spec_options() == old(self).spec_options(),
            final(self).enabled() == (SessionOptions {
                alternate_screen: false,
                mouse_capture: false,
                bracketed_paste: false,
                focus_events: false,
            }),
    {
        let mut steps: Vec<SessionStep> = Vec::new();
        if self.focus_events_enabled {
            steps.push(SessionStep::DisableFocusChange);
            self.focus_events_enabled = false;
        }
        if self.bracketed_paste_enabled {
            steps.push(SessionStep::DisableBracketedPaste);
            self.bracketed_paste_enabled = false;
        }
        if self.mouse_enabled {
            steps.push(SessionStep::DisableMouseCapture);
            self.mouse_enabled = false;
        }
        steps.push(SessionStep::ShowCursor);
        if self.alternate_screen_enabled {
            steps.push(SessionStep::LeaveAlternateScreen);
            self.alternate_screen_enabled = false;
        }
        steps.push(SessionStep::DisableRawMode);
        steps.push(SessionStep::Flush);
        assert(steps@ =~= Self::cleanup_plan(old(self).enabled()));
        steps
    }
}

} // verus!
