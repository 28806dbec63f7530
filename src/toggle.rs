//! The development-only toggle of the developer panel, driven by presses of
//! the debug hotkey.

use vstd::prelude::*;

verus! {

/// Whether the developer panel is shown.
#[derive(Clone, Copy, Debug, PartialEq, Eq, Structural)]
pub enum DebugPanelState {
    Closed,
    Open,
}

/// What the global hotkey reports.
#[derive(Clone, Copy, Debug, PartialEq, Eq, Structural)]
pub enum ShortcutEvent {
    Pressed,
    Released,
}

/// What the toggle asks of the window capability.
#[derive(Clone, Copy, Debug, PartialEq, Eq, Structural)]
pub enum PanelCommand {
    OpenPanel,
    ClosePanel,
}

/// The next state and the command to issue, from `state` on `event`, when
/// the main window was (`window_found`) or was not found.
pub open spec fn step(state: DebugPanelState, event: ShortcutEvent, window_found: bool) -> (
    DebugPanelState,
    Option<PanelCommand>,
) {
    match event {
        ShortcutEvent::Released => (state, None),
        ShortcutEvent::Pressed => if !window_found {
            (state, None)
        } else {
            match state {
                DebugPanelState::Closed => (DebugPanelState::Open, Some(PanelCommand::OpenPanel)),
                DebugPanelState::Open => (DebugPanelState::Closed, Some(PanelCommand::ClosePanel)),
            }
        },
    }
}

/// The developer panel toggle. Only a development-mode host configuration
/// hands one out.
pub struct DebugToggle {
    state: DebugPanelState,
}

impl DebugToggle {
    pub closed spec fn spec_state(&self) -> DebugPanelState {
        self.state
    }

    /// A toggle in its initial state, `Closed`.
    pub(crate) fn new() -> (r: Self)
        ensures
            r.spec_state() == DebugPanelState::Closed,
    {
        DebugToggle { state: DebugPanelState::Closed }
    }

    /// The current state.
    pub fn state(&self) -> (r: DebugPanelState)
        ensures
            r == self.spec_state(),
    {
        self.state
    }

    /// Takes one hotkey event. A press flips the state and returns the
    /// command that makes the panel follow; a release, or a press while the
    /// main window cannot be found, changes nothing and returns no command.
    /// Events are taken one at a time through `&mut self`, so no press is
    /// handled while the command of another is being issued.
    pub fn handle(&mut self, event: ShortcutEvent, window_found: bool) -> (r: Option<PanelCommand>)
        ensures
            (final(self).spec_state(), r) == step(old(self).spec_state(), event, window_found),
    {
        match event {
            ShortcutEvent::Released => None,
            ShortcutEvent::Pressed => {
                if !window_found {
                    return None;
                }
                match self.state {
                    DebugPanelState::Closed => {
                        self.state = DebugPanelState::Open;
                        Some(PanelCommand::OpenPanel)
                    },
                    DebugPanelState::Open => {
                        self.state = DebugPanelState::Closed;
                        Some(PanelCommand::ClosePanel)
                    },
                }
            },
        }
    }
}

/// From `Closed`, a press opens the panel with one open command and a second
/// press closes it with one close command; a release never changes the state
/// nor issues a command.
pub proof fn lemma_toggle_cycle(s: DebugPanelState, found: bool)
    ensures
        step(DebugPanelState::Closed, ShortcutEvent::Pressed, true) == (
            DebugPanelState::Open,
            Some(PanelCommand::OpenPanel),
        ),
        step(
            step(DebugPanelState::Closed, ShortcutEvent::Pressed, true).0,
            ShortcutEvent::Pressed,
            true,
        ) == (DebugPanelState::Closed, Some(PanelCommand::ClosePanel)),
        step(s, ShortcutEvent::Released, found) == (s, None::<PanelCommand>),
{
}

} // verus!
