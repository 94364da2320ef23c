//! The tray session state machine.
//!
//! The session owns the color snapshot and the icon resource owner and
//! decides, event by event, what the embedding program should do next.
//! Outside work — realizing a canvas as an icon, showing the menu,
//! creating or focusing the settings surface, destroying handles — is
//! returned as an `Action` (or, for a tick, as a canvas to realize);
//! the program performs it and feeds the outcome back in. All
//! transitions run to completion on one event-dispatch thread, so a
//! tick's render and its completion are never interleaved with another
//! event.

use vstd::prelude::*;

use crate::canvas::Canvas;
use crate::canvas::render;
use crate::canvas::renders;
use crate::color::Color;
use crate::color::ColorSettings;
use crate::color::spec_default_colors;
use crate::icon::IconOwner;

verus! {

/// The session's state: `Running` is the steady state that renders on
/// every tick; `MenuOpen` and `SettingsOpen` are the two interaction
/// detours back to `Running`; `Terminating` is terminal.
#[derive(Clone, Copy, Debug, PartialEq, Eq, Structural)]
pub enum SessionState {
    Running,
    MenuOpen,
    SettingsOpen,
    Terminating,
}

/// An input event, as the platform delivers it: a secondary pointer
/// action on the tray glyph, a menu selection, a live color edit from
/// the settings surface, or the surface being closed. Timer ticks are
/// separate (`tick_render` / `tick_complete`) because they carry data
/// both ways.
#[derive(Clone, Copy, Debug, PartialEq, Eq)]
pub enum Event {
    /// Secondary pointer action on the tray glyph.
    MenuRequest,
    /// Menu selection: terminate the session.
    SelectTerminate,
    /// Menu selection: open the settings surface.
    SelectOpenSettings,
    /// The settings surface reports an edited foreground color.
    ColorEdited { color: Color },
    /// The settings surface was closed.
    SettingsClosed,
}

/// What the embedding program must do after a step.
#[derive(Clone, Copy, Debug, PartialEq, Eq)]
pub enum Action {
    /// Present the action list (open settings / terminate).
    ShowMenu,
    /// Create the settings surface: the one open-surface transition.
    OpenSurface,
    /// Bring the already-open settings surface forward; no new surface.
    FocusSurface,
    /// Shut down: destroy the released handle, if any, then unpublish
    /// the tray presence and exit.
    Shutdown { release: Option<u64> },
    /// Nothing to do; the event was ignored in the current state.
    Skip,
}

/// The outcome of realizing a tick's canvas as a platform icon.
#[derive(Clone, Copy, Debug, PartialEq, Eq)]
pub enum TickOutcome {
    /// The platform produced an icon handle for the canvas.
    Realized { handle: u64 },
    /// Realization failed; the tick is skipped.
    RenderFailed,
}

/// Events carry well-formed data: an edited color is a 24-bit value.
pub open spec fn event_wf(event: Event) -> bool {
    event matches Event::ColorEdited { color } ==> color.wf()
}

/// The running tray session: its state, the color snapshot the next
/// render will read, and the icon resource owner.
#[derive(Clone, Copy, Debug, PartialEq, Eq)]
pub struct Session {
    pub state: SessionState,
    pub colors: ColorSettings,
    pub owner: IconOwner,
}

/// The transition relation of the state machine, as one total
/// function: the session after `event`, and the action the embedding
/// program must carry out. Events that the current state does not
/// react to leave the session unchanged and yield `Skip`.
pub open spec fn step_spec(s: Session, event: Event) -> (Session, Action) {
    match event {
        Event::MenuRequest => {
            if s.state is Running {
                (
                    Session { state: SessionState::MenuOpen, colors: s.colors, owner: s.owner },
                    Action::ShowMenu,
                )
            } else {
                (s, Action::Skip)
            }
        },
        Event::SelectTerminate => {
            if s.state is Terminating {
                (s, Action::Skip)
            } else {
                (
                    Session {
                        state: SessionState::Terminating,
                        colors: s.colors,
                        owner: s.owner.spec_release_all(),
                    },
                    Action::Shutdown { release: s.owner.live },
                )
            }
        },
        Event::SelectOpenSettings => {
            if s.state is MenuOpen {
                (
                    Session { state: SessionState::SettingsOpen, colors: s.colors, owner: s.owner },
                    Action::OpenSurface,
                )
            } else if s.state is SettingsOpen {
                (s, Action::FocusSurface)
            } else {
                (s, Action::Skip)
            }
        },
        Event::ColorEdited { color } => {
            if s.state is SettingsOpen {
                (
                    Session {
                        state: s.state,
                        colors: ColorSettings {
                            foreground: color,
                            background: s.colors.background,
                        },
                        owner: s.owner,
                    },
                    Action::Skip,
                )
            } else {
                (s, Action::Skip)
            }
        },
        Event::SettingsClosed => {
            if s.state is SettingsOpen {
                (
                    Session { state: SessionState::Running, colors: s.colors, owner: s.owner },
                    Action::Skip,
                )
            } else {
                (s, Action::Skip)
            }
        },
    }
}

/// The session after a completed tick, and the superseded handle the
/// embedding program must destroy. Only a `Running` session with a
/// realized icon installs anything; a failed realization — or a tick
/// in any other state — changes nothing.
pub open spec fn tick_spec(s: Session, outcome: TickOutcome) -> (Session, Option<u64>) {
    if s.state is Running {
        match outcome {
            TickOutcome::Realized { handle } => (
                Session { state: s.state, colors: s.colors, owner: s.owner.spec_install(handle) },
                s.owner.live,
            ),
            TickOutcome::RenderFailed => (s, Option::None),
        }
    } else {
        (s, Option::None)
    }
}

impl Session {
    /// The owner's lifecycle discipline holds and the color snapshot
    /// is well formed.
    pub open spec fn wf(self) -> bool {
        &&& self.owner.wf()
        &&& self.colors.wf()
    }

    /// A fresh session: running, with no icon installed yet, reading
    /// the stored color settings — or the built-in defaults where the
    /// store was unavailable.
    pub fn new(stored: Option<ColorSettings>) -> (s: Session)
        requires
            stored matches Some(cs) ==> cs.wf(),
        ensures
            s.wf(),
            s.state is Running,
            s.owner.live is None,
            s.owner.installed == 0,
            s.owner.released == 0,
            s.colors == (match stored {
                Option::Some(cs) => cs,
                Option::None => spec_default_colors(),
            }),
    {
        let colors: ColorSettings = match stored {
            Some(cs) => cs,
            None => ColorSettings::default(),
        };
        Session { state: SessionState::Running, colors, owner: IconOwner::new() }
    }

    /// Handles one event: the session moves exactly as `step_spec`
    /// says, and the returned action is what the embedding program
    /// must carry out.
    pub fn step(&mut self, event: Event) -> (action: Action)
        requires
            old(self).wf(),
            event_wf(event),
        ensures
            final(self).wf(),
            *final(self) == step_spec(*old(self), event).0,
            action == step_spec(*old(self), event).1,
    {
        match event {
            Event::MenuRequest => {
                match self.state {
                    SessionState::Running => {
                        self.state = SessionState::MenuOpen;
                        Action::ShowMenu
                    },
                    _ => Action::Skip,
                }
            },
            Event::SelectTerminate => {
                match self.state {
                    SessionState::Terminating => Action::Skip,
                    _ => {
                        let release: Option<u64> = self.owner.release_all();
                        self.state = SessionState::Terminating;
                        Action::Shutdown { release }
                    },
                }
            },
            Event::SelectOpenSettings => {
                match self.state {
                    SessionState::MenuOpen => {
                        self.state = SessionState::SettingsOpen;
                        Action::OpenSurface
                    },
                    SessionState::SettingsOpen => Action::FocusSurface,
                    _ => Action::Skip,
                }
            },
            Event::ColorEdited { color } => {
                match self.state {
                    SessionState::SettingsOpen => {
                        self.colors.foreground = color;
                        Action::Skip
                    },
                    _ => Action::Skip,
                }
            },
            Event::SettingsClosed => {
                match self.state {
                    SessionState::SettingsOpen => {
                        self.state = SessionState::Running;
                        Action::Skip
                    },
                    _ => Action::Skip,
                }
            },
        }
    }

    /// The render half of a tick: in the `Running` state, composes the
    /// canvas for the sampled pointer position from the current color
    /// snapshot — the snapshot as of this tick, so an edit made after
    /// this call only affects the next tick. In any other state the
    /// tick is ignored and nothing is rendered.
    pub fn tick_render(&self, pointer: (u32, u32)) -> (canvas: Option<Canvas>)
        ensures
            self.state is Running ==> (canvas matches Some(c) && renders(
                c,
                pointer.0 as int,
                pointer.1 as int,
                self.colors.foreground,
                self.colors.background,
            )),
            !(self.state is Running) ==> canvas is None,
    {
        match self.state {
            SessionState::Running => Some(
                render(pointer, self.colors.foreground, self.colors.background),
            ),
            _ => None,
        }
    }

    /// The completion half of a tick: hands the realization outcome
    /// back to the session. On success the new handle is installed and
    /// the superseded one is returned for destruction; on
    /// `RenderFailed` the session — in particular the live, published
    /// handle — is left exactly as it was.
    pub fn tick_complete(&mut self, outcome: TickOutcome) -> (superseded: Option<u64>)
        requires
            old(self).wf(),
            old(self).owner.installed < u64::MAX,
        ensures
            final(self).wf(),
            *final(self) == tick_spec(*old(self), outcome).0,
            superseded == tick_spec(*old(self), outcome).1,
            final(self).state == old(self).state,
            final(self).colors == old(self).colors,
            outcome is RenderFailed ==> *final(self) == *old(self) && superseded is None,
    {
        match self.state {
            SessionState::Running => {
                match outcome {
                    TickOutcome::Realized { handle } => self.owner.install(handle),
                    TickOutcome::RenderFailed => None,
                }
            },
            _ => None,
        }
    }
}

/// Idempotence of "open settings": while the settings surface is open,
/// a further open-settings selection changes nothing — the one held
/// surface is only brought forward, never duplicated.
pub proof fn lemma_open_settings_idempotent(s: Session)
    requires
        s.state is SettingsOpen,
    ensures
        step_spec(s, Event::SelectOpenSettings).0 == s,
        step_spec(s, Event::SelectOpenSettings).1 == Action::FocusSurface,
{
}

/// Two consecutive open-settings selections perform exactly one
/// surface-open transition: the first opens the surface, the second
/// leaves the session unchanged.
pub proof fn lemma_open_settings_twice(s: Session)
    requires
        s.state is MenuOpen,
    ensures
        ({
            let (s1, a1) = step_spec(s, Event::SelectOpenSettings);
            let (s2, a2) = step_spec(s1, Event::SelectOpenSettings);
            &&& s1.state is SettingsOpen
            &&& a1 == Action::OpenSurface
            &&& s2 == s1
            &&& a2 == Action::FocusSurface
        }),
{
}

/// A failed render leaves the session — in particular the live,
/// published handle — exactly as it was: there is no
/// unpublish-then-fail gap.
pub proof fn lemma_render_failed_keeps_handle(s: Session)
    ensures
        tick_spec(s, TickOutcome::RenderFailed).0 == s,
        tick_spec(s, TickOutcome::RenderFailed).1 is None,
{
}

/// Every handle installed over a session is released exactly once by
/// the time shutdown completes: the terminate transition brings the
/// release count up to the install count, with nothing left live.
pub proof fn lemma_shutdown_balances(s: Session)
    requires
        s.wf(),
        !(s.state is Terminating),
    ensures
        ({
            let (s1, a1) = step_spec(s, Event::SelectTerminate);
            &&& s1.owner.released == s1.owner.installed
            &&& s1.owner.live is None
            &&& a1 == (Action::Shutdown { release: s.owner.live })
        }),
{
}

} // verus!
