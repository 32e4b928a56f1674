//! The state of the terminal interface and how key presses change it.

use crate::config::AetherConfig;
use vstd::prelude::*;

verus! {

/// What the interface is doing.
#[derive(Clone, Copy, Debug, PartialEq, Eq, Structural)]
pub enum Action {
    ProfileSelection,
    NoAction,
}

/// The panel that has the focus.
#[derive(Clone, Copy, Debug, PartialEq, Eq, Structural)]
pub enum Panel {
    Menu,
    Profile,
    NoPanel,
}

/// A direction to move the focus in.
#[derive(Clone, Copy, Debug, PartialEq, Eq, Structural)]
pub enum PanelDirection {
    Left,
    Right,
    Up,
    Down,
}

/// The interface's mode.
#[derive(Clone, Copy, Debug, PartialEq, Eq, Structural)]
pub enum Mode {
    Default,
}

/// The key of a key press.
#[derive(Clone, Copy, Debug, PartialEq, Eq, Structural)]
pub enum KeyCode {
    Char(char),
    Esc,
    Left,
    Right,
    Up,
    Down,
    Enter,
    Other,
}

/// The state of the terminal interface.
pub struct AppState {
    pub should_quit: bool,
    pub config: AetherConfig,
    pub current_panel: Panel,
    pub mode: Mode,
    pub action: Action,
}

/// The part of the state that key presses change.
#[derive(PartialEq, Eq, Structural)]
pub struct Screen {
    pub should_quit: bool,
    pub current_panel: Panel,
    pub mode: Mode,
    pub action: Action,
}

impl AppState {
    pub open spec fn screen(&self) -> Screen {
        Screen {
            should_quit: self.should_quit,
            current_panel: self.current_panel,
            mode: self.mode,
            action: self.action,
        }
    }

    /// The state the interface starts in: the menu has the focus.
    pub fn new(config: AetherConfig) -> (r: AppState)
        ensures
            r.config == config,
            r.screen() == (Screen { should_quit: false, current_panel: Panel::Menu, mode: Mode::Default, action: Action::NoAction }),
    {
        AppState { should_quit: false, config, current_panel: Panel::Menu, mode: Mode::Default, action: Action::NoAction }
    }

    /// Moves the focus: up to the profile panel, down to the menu; left and
    /// right do nothing (there are no panels beside these yet).
    pub fn handle_panel_changes(&mut self, direction: PanelDirection)
        ensures
            final(self).config == old(self).config,
            final(self).screen() == panel_moved(old(self).screen(), direction),
    {
        if self.mode == Mode::Default {
            match direction {
                PanelDirection::Left => {},
                PanelDirection::Right => {},
                PanelDirection::Up => {
                    self.current_panel = Panel::Profile;
                },
                PanelDirection::Down => {
                    self.current_panel = Panel::Menu;
                },
            }
        }
    }

    /// Enter on the profile panel starts selecting a profile.
    pub fn handle_enter(&mut self)
        ensures
            final(self).config == old(self).config,
            final(self).screen() == entered(old(self).screen()),
    {
        if self.current_panel == Panel::Profile {
            self.action = Action::ProfileSelection;
        }
    }

    /// Handles a key press; `ctrl` says whether Control, and no other
    /// modifier, was held.
    pub fn handle_key_event(&mut self, code: KeyCode, ctrl: bool)
        ensures
            final(self).config == old(self).config,
            final(self).screen() == key_handled(old(self).screen(), code, ctrl),
    {
        match code {
            KeyCode::Char(c) => {
                if c == 'q' && ctrl {
                    self.should_quit = true;
                }
            },
            KeyCode::Esc => {
                self.mode = Mode::Default;
                self.action = Action::NoAction;
                self.current_panel = Panel::NoPanel;
            },
            KeyCode::Left => {
                if ctrl {
                    self.handle_panel_changes(PanelDirection::Left);
                }
            },
            KeyCode::Right => {
                if ctrl {
                    self.handle_panel_changes(PanelDirection::Right);
                }
            },
            KeyCode::Down => {
                if ctrl {
                    self.handle_panel_changes(PanelDirection::Down);
                }
            },
            KeyCode::Up => {
                if ctrl {
                    self.handle_panel_changes(PanelDirection::Up);
                }
            },
            KeyCode::Enter => self.handle_enter(),
            KeyCode::Other => {},
        }
    }
}

/// Where the focus goes.
pub open spec fn panel_moved(s: Screen, d: PanelDirection) -> Screen {
    match d {
        PanelDirection::Up => Screen { current_panel: Panel::Profile, ..s },
        PanelDirection::Down => Screen { current_panel: Panel::Menu, ..s },
        _ => s,
    }
}

/// What Enter does.
pub open spec fn entered(s: Screen) -> Screen {
    if s.current_panel == Panel::Profile {
        Screen { action: Action::ProfileSelection, ..s }
    } else {
        s
    }
}

/// What a key press does: Control-Q quits; Escape drops the focus and any
/// action; Control with an arrow moves the focus; Enter acts on the focused
/// panel; anything else does nothing.
pub open spec fn key_handled(s: Screen, code: KeyCode, ctrl: bool) -> Screen {
    match code {
        KeyCode::Char(c) => if c == 'q' && ctrl {
            Screen { should_quit: true, ..s }
        } else {
            s
        },
        KeyCode::Esc => Screen { mode: Mode::Default, action: Action::NoAction, current_panel: Panel::NoPanel, ..s },
        KeyCode::Left => if ctrl { panel_moved(s, PanelDirection::Left) } else { s },
        KeyCode::Right => if ctrl { panel_moved(s, PanelDirection::Right) } else { s },
        KeyCode::Down => if ctrl { panel_moved(s, PanelDirection::Down) } else { s },
        KeyCode::Up => if ctrl { panel_moved(s, PanelDirection::Up) } else { s },
        KeyCode::Enter => entered(s),
        KeyCode::Other => s,
    }
}

/// Once the interface is told to quit, no key press brings it back; and
/// selecting a profile is only ever started from the profile panel.
pub proof fn law_quit_is_final_and_selection_needs_profile(s: Screen, code: KeyCode, ctrl: bool)
    ensures
        s.should_quit ==> key_handled(s, code, ctrl).should_quit,
        key_handled(s, code, ctrl).action == Action::ProfileSelection ==> s.action == Action::ProfileSelection
            || s.current_panel == Panel::Profile,
{
}

} // verus!
