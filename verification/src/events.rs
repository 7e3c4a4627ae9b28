//! What a keystroke or a resize does: the rules of the user interface as
//! a step from state and event to state, action and effect.

use vstd::prelude::*;
use crate::header::{Architecture, Bitness, Header};
use crate::layout::InfoMode;
use crate::popup::PopupState;
use crate::session::{App, Pane};

verus! {

/// A keystroke, by what it asks for.
#[derive(Clone, Copy, Debug, PartialEq, Eq, Structural)]
pub enum Key {
    Up,
    Down,
    Left,
    Right,
    PageUp,
    PageDown,
    Enter,
    Escape,
    /// Gives the cursor to the next pane.
    NextPane,
    /// Asks to write the file.
    Save,
    /// Asks to write the file and leave.
    SaveAndQuit,
    /// Asks to leave.
    Quit,
    /// Asks for the help page.
    Help,
    /// Switches the info pane between text and assembly.
    SwitchInfoView,
    /// A hexadecimal digit, by its value.
    Digit(u8),
    /// Any other key.
    Other,
}

/// What the terminal reports.
#[derive(Clone, Copy, Debug, PartialEq, Eq, Structural)]
pub enum Event {
    Key(Key),
    Resize(u16, u16),
}

/// What is left to do outside once an event was handled.
#[derive(Clone, Copy, Debug, PartialEq, Eq, Structural)]
pub enum Action {
    Nothing,
    /// Write the buffer to the file, and leave afterwards where
    /// `quit_after` says so.
    Save { quit_after: bool },
}

/// What an event does to the session.
#[derive(Clone, Copy, Debug, PartialEq, Eq, Structural)]
pub enum Effect {
    Nothing,
    Resize(u16, u16),
    ScrollRows(isize),
    ScrollAssembly(isize),
    MoveCursor(isize, isize),
    Focus(Pane),
    /// A hexadecimal digit is typed over the byte under the cursor.
    TypeDigit(u8),
}

/// The state of the user interface beside the session.
#[derive(Clone, Copy, Debug, PartialEq, Eq)]
pub struct Ui {
    pub info_mode: InfoMode,
    pub popup: Option<PopupState>,
    pub needs_to_exit: bool,
}

/// The outcome of one event.
#[derive(Clone, Copy, Debug, PartialEq, Eq)]
pub struct Plan {
    pub ui: Ui,
    pub action: Action,
    pub effect: Effect,
}

/// The question of `popup` with the answer `yes` selected; the help page
/// has no answers.
pub open spec fn with_answer(popup: PopupState, yes: bool) -> PopupState {
    match popup {
        PopupState::Save(_) => PopupState::Save(yes),
        PopupState::SaveAndQuit(_) => PopupState::SaveAndQuit(yes),
        PopupState::QuitDirtySave(_) => PopupState::QuitDirtySave(yes),
        PopupState::Help => PopupState::Help,
    }
}

/// What a key does while `popup` is open: left and right select an
/// answer, escape closes the popup, and enter closes it and acts on the
/// selected answer.
pub open spec fn planned_in_popup(ui: Ui, popup: PopupState, key: Key) -> Plan {
    let still = Plan { ui, action: Action::Nothing, effect: Effect::Nothing };
    let closed = Ui { popup: None, ..ui };
    match key {
        Key::Left => Plan { ui: Ui { popup: Some(with_answer(popup, true)), ..ui }, ..still },
        Key::Right => Plan { ui: Ui { popup: Some(with_answer(popup, false)), ..ui }, ..still },
        Key::Escape => Plan { ui: closed, ..still },
        Key::Enter => match popup {
            PopupState::Save(yes) => Plan {
                ui: closed,
                action: if yes {
                    Action::Save { quit_after: false }
                } else {
                    Action::Nothing
                },
                effect: Effect::Nothing,
            },
            PopupState::SaveAndQuit(yes) => Plan {
                ui: closed,
                action: if yes {
                    Action::Save { quit_after: true }
                } else {
                    Action::Nothing
                },
                effect: Effect::Nothing,
            },
            PopupState::QuitDirtySave(yes) => if yes {
                Plan { ui: closed, action: Action::Save { quit_after: true }, effect: Effect::Nothing }
            } else {
                Plan { ui: Ui { popup: None, needs_to_exit: true, ..ui }, ..still }
            },
            PopupState::Help => Plan { ui: closed, ..still },
        },
        _ => still,
    }
}

/// The pane that gets the cursor next: from the hex editor the info pane
/// as it is shown, from anywhere else the hex editor.
pub open spec fn next_pane(focus: Pane, info_mode: InfoMode) -> Pane {
    match focus {
        Pane::Hex => match info_mode {
            InfoMode::Text => Pane::Text,
            InfoMode::Assembly => Pane::Assembly,
        },
        _ => Pane::Hex,
    }
}

/// The scrolling of the focused pane by `delta`: of the instructions for
/// the assembly pane, of the rows for any other.
pub open spec fn scroll_of(focus: Pane, delta: isize) -> Effect {
    match focus {
        Pane::Assembly => Effect::ScrollAssembly(delta),
        _ => Effect::ScrollRows(delta),
    }
}

/// What a key does while no popup is open.
pub open spec fn planned_without_popup(ui: Ui, key: Key, dirty: bool, focus: Pane, page: u16) -> Plan {
    let still = Plan { ui, action: Action::Nothing, effect: Effect::Nothing };
    match key {
        Key::Save => Plan { ui: Ui { popup: Some(PopupState::Save(false)), ..ui }, ..still },
        Key::SaveAndQuit => Plan { ui: Ui { popup: Some(PopupState::SaveAndQuit(false)), ..ui }, ..still },
        Key::Quit => if dirty {
            Plan { ui: Ui { popup: Some(PopupState::QuitDirtySave(false)), ..ui }, ..still }
        } else {
            Plan { ui: Ui { needs_to_exit: true, ..ui }, ..still }
        },
        Key::Help => Plan { ui: Ui { popup: Some(PopupState::Help), ..ui }, ..still },
        Key::SwitchInfoView => Plan {
            ui: Ui {
                info_mode: match ui.info_mode {
                    InfoMode::Text => InfoMode::Assembly,
                    InfoMode::Assembly => InfoMode::Text,
                },
                ..ui
            },
            ..still
        },
        Key::NextPane => Plan { effect: Effect::Focus(next_pane(focus, ui.info_mode)), ..still },
        Key::Up => Plan { effect: Effect::MoveCursor(0, -1isize), ..still },
        Key::Down => Plan { effect: Effect::MoveCursor(0, 1), ..still },
        Key::Left => Plan { effect: Effect::MoveCursor(-1isize, 0), ..still },
        Key::Right => Plan { effect: Effect::MoveCursor(1, 0), ..still },
        Key::PageUp => Plan { effect: scroll_of(focus, (-(page as int)) as isize), ..still },
        Key::PageDown => Plan { effect: scroll_of(focus, page as isize), ..still },
        Key::Digit(digit) => if digit < 16 {
            Plan { effect: Effect::TypeDigit(digit), ..still }
        } else {
            still
        },
        _ => still,
    }
}

/// What an event does: a resize reaches the session whatever is open; a
/// key goes to the popup where one is open and to the panes otherwise.
/// `dirty` and `focus` are those of the session, `page` is the number of
/// rows that a pane shows.
pub open spec fn planned(ui: Ui, event: Event, dirty: bool, focus: Pane, page: u16) -> Plan {
    match event {
        Event::Resize(width, height) => Plan { ui, action: Action::Nothing, effect: Effect::Resize(width, height) },
        Event::Key(key) => match ui.popup {
            Some(popup) => planned_in_popup(ui, popup, key),
            None => planned_without_popup(ui, key, dirty, focus, page),
        },
    }
}

/// The byte that typing `digit` makes of `byte`: the low digit of the
/// byte becomes its high one, and `digit` its low one.
pub open spec fn typed_over(byte: u8, digit: u8) -> u8 {
    ((byte % 16) * 16 + digit % 16) as u8
}

/// Rows that a pane shows on a screen of `height` rows: all but the two
/// of its border.
pub open spec fn page_of(height: u16) -> u16 {
    if height >= 2 {
        (height - 2) as u16
    } else {
        0
    }
}

fn select(popup: PopupState, yes: bool) -> (r: PopupState)
    ensures
        r == with_answer(popup, yes),
{
    match popup {
        PopupState::Save(_) => PopupState::Save(yes),
        PopupState::SaveAndQuit(_) => PopupState::SaveAndQuit(yes),
        PopupState::QuitDirtySave(_) => PopupState::QuitDirtySave(yes),
        PopupState::Help => PopupState::Help,
    }
}

fn scroll_focused(focus: Pane, delta: isize) -> (r: Effect)
    ensures
        r == scroll_of(focus, delta),
{
    match focus {
        Pane::Assembly => Effect::ScrollAssembly(delta),
        _ => Effect::ScrollRows(delta),
    }
}

/// Decides what `event` does in state `ui`.
pub fn plan(ui: Ui, event: Event, dirty: bool, focus: Pane, page: u16) -> (r: Plan)
    ensures
        r == planned(ui, event, dirty, focus, page),
{
    let still = Plan { ui, action: Action::Nothing, effect: Effect::Nothing };
    let key = match event {
        Event::Resize(width, height) => {
            return Plan { ui, action: Action::Nothing, effect: Effect::Resize(width, height) };
        },
        Event::Key(key) => key,
    };
    let closed = Ui { popup: None, info_mode: ui.info_mode, needs_to_exit: ui.needs_to_exit };
    let opened = |popup: PopupState| -> (u: Ui)
        ensures
            u == (Ui { popup: Some(popup), ..ui }),
        { Ui { popup: Some(popup), info_mode: ui.info_mode, needs_to_exit: ui.needs_to_exit } };
    match ui.popup {
        Some(popup) => match key {
            Key::Left => Plan { ui: opened(select(popup, true)), action: Action::Nothing, effect: Effect::Nothing },
            Key::Right => Plan { ui: opened(select(popup, false)), action: Action::Nothing, effect: Effect::Nothing },
            Key::Escape => Plan { ui: closed, action: Action::Nothing, effect: Effect::Nothing },
            Key::Enter => match popup {
                PopupState::Save(yes) => Plan {
                    ui: closed,
                    action: if yes {
                        Action::Save { quit_after: false }
                    } else {
                        Action::Nothing
                    },
                    effect: Effect::Nothing,
                },
                PopupState::SaveAndQuit(yes) => Plan {
                    ui: closed,
                    action: if yes {
                        Action::Save { quit_after: true }
                    } else {
                        Action::Nothing
                    },
                    effect: Effect::Nothing,
                },
                PopupState::QuitDirtySave(yes) => if yes {
                    Plan { ui: closed, action: Action::Save { quit_after: true }, effect: Effect::Nothing }
                } else {
                    Plan {
                        ui: Ui { popup: None, info_mode: ui.info_mode, needs_to_exit: true },
                        action: Action::Nothing,
                        effect: Effect::Nothing,
                    }
                },
                PopupState::Help => Plan { ui: closed, action: Action::Nothing, effect: Effect::Nothing },
            },
            _ => still,
        },
        None => {
            let moved = |effect: Effect| -> (p: Plan)
                ensures
                    p == (Plan { ui, action: Action::Nothing, effect }),
                { Plan { ui, action: Action::Nothing, effect } };
            let shown = |popup: PopupState| -> (p: Plan)
                ensures
                    p == (Plan { ui: Ui { popup: Some(popup), ..ui }, action: Action::Nothing, effect: Effect::Nothing }),
                {
                    Plan {
                        ui: Ui { popup: Some(popup), info_mode: ui.info_mode, needs_to_exit: ui.needs_to_exit },
                        action: Action::Nothing,
                        effect: Effect::Nothing,
                    }
                };
            match key {
                Key::Save => shown(PopupState::Save(false)),
                Key::SaveAndQuit => shown(PopupState::SaveAndQuit(false)),
                Key::Quit => if dirty {
                    shown(PopupState::QuitDirtySave(false))
                } else {
                    Plan {
                        ui: Ui { popup: ui.popup, info_mode: ui.info_mode, needs_to_exit: true },
                        action: Action::Nothing,
                        effect: Effect::Nothing,
                    }
                },
                Key::Help => shown(PopupState::Help),
                Key::SwitchInfoView => Plan {
                    ui: Ui {
                        info_mode: match ui.info_mode {
                            InfoMode::Text => InfoMode::Assembly,
                            InfoMode::Assembly => InfoMode::Text,
                        },
                        popup: ui.popup,
                        needs_to_exit: ui.needs_to_exit,
                    },
                    action: Action::Nothing,
                    effect: Effect::Nothing,
                },
                Key::NextPane => {
                    let next = match focus {
                        Pane::Hex => match ui.info_mode {
                            InfoMode::Text => Pane::Text,
                            InfoMode::Assembly => Pane::Assembly,
                        },
                        _ => Pane::Hex,
                    };
                    moved(Effect::Focus(next))
                },
                Key::Up => moved(Effect::MoveCursor(0, -1)),
                Key::Down => moved(Effect::MoveCursor(0, 1)),
                Key::Left => moved(Effect::MoveCursor(-1, 0)),
                Key::Right => moved(Effect::MoveCursor(1, 0)),
                Key::PageUp => moved(scroll_focused(focus, -(page as isize))),
                Key::PageDown => moved(scroll_focused(focus, page as isize)),
                Key::Digit(digit) => if digit < 16 {
                    moved(Effect::TypeDigit(digit))
                } else {
                    still
                },
                _ => still,
            }
        },
    }
}

impl<P, D> App<P, D> where
    P: Fn(&[u8]) -> Header,
    D: Fn(&[u8], usize, Architecture, Bitness) -> Option<(String, usize)>,
 {
    /// `after` is this session once `effect` took place.
    pub open spec fn effected(self, after: Self, effect: Effect) -> bool {
        match effect {
            Effect::Nothing => after == self,
            Effect::Resize(width, height) => self.resized(after, width, height),
            Effect::ScrollRows(delta) => self.scrolled(after, delta as int),
            Effect::ScrollAssembly(delta) => self.assembly_scrolled(after, delta as int),
            Effect::MoveCursor(columns, rows) => self.cursor_moved(after, columns as int, rows as int),
            Effect::Focus(pane) => self.refocused(after, pane),
            Effect::TypeDigit(digit) => if self.on_byte() {
                self.edited(after, self.cursor_offset(), typed_over(self.data@[self.cursor_offset()], digit))
            } else {
                after == self
            },
        }
    }

    /// Lets `effect` take place.
    pub fn perform(&mut self, effect: Effect)
        requires
            old(self).wf(),
        ensures
            final(self).wf(),
            old(self).effected(*final(self), effect),
    {
        match effect {
            Effect::Nothing => {},
            Effect::Resize(width, height) => self.on_resize(width, height),
            Effect::ScrollRows(delta) => self.scroll_by(delta),
            Effect::ScrollAssembly(delta) => self.assembly_scroll_by(delta),
            Effect::MoveCursor(columns, rows) => self.move_cursor(columns, rows),
            Effect::Focus(pane) => self.set_focus(pane),
            Effect::TypeDigit(digit) => {
                match self.byte_under_cursor() {
                    Some(offset) => {
                        let len = self.data.len();
                        let byte = self.data[offset];
                        let typed: u8 = (byte % 16) * 16 + digit % 16;
                        proof {
                            assert(self.on_byte());
                            assert(self.cursor_offset() < len);
                            assert(offset as int == self.cursor_offset());
                            assert(typed == typed_over(self.data@[self.cursor_offset()], digit));
                        }
                        self.apply_edit(offset, typed);
                    },
                    None => {},
                }
            },
        }
    }

    /// Handles one event: the user interface takes its next state, the
    /// session takes the event's effect, and what is left to do outside is
    /// returned.
    pub fn handle_event(&mut self, ui: &mut Ui, event: Event) -> (action: Action)
        requires
            old(self).wf(),
        ensures
            final(self).wf(),
            ({
                let p = planned(
                    *old(ui),
                    event,
                    old(self).state.dirty,
                    old(self).focus,
                    page_of(old(self).screen_size.1),
                );
                &&& *final(ui) == p.ui
                &&& action == p.action
                &&& old(self).effected(*final(self), p.effect)
            }),
    {
        let height = self.screen_size.1;
        let page: u16 = if height >= 2 { height - 2 } else { 0 };
        let p = plan(*ui, event, self.state.dirty, self.focus, page);
        *ui = p.ui;
        self.perform(p.effect);
        p.action
    }
}

/// Whatever an event does to a session, short of typing a digit, the
/// buffer stays as it is and is no more and no less edited than before:
/// what is written to the file is what was read from it or last edited.
pub proof fn effects_keep_the_buffer<P, D>(before: App<P, D>, after: App<P, D>, effect: Effect)
    where
        P: Fn(&[u8]) -> Header,
        D: Fn(&[u8], usize, Architecture, Bitness) -> Option<(String, usize)>,
    requires
        before.effected(after, effect),
        !(effect is TypeDigit),
    ensures
        after.data@ == before.data@,
        after.state.dirty == before.state.dirty,
        after.header == before.header,
        after.index == before.index,
{
}

/// Scrolling the rows leaves the assembly pane where it is, and scrolling
/// the assembly pane leaves the rows where they are.
pub proof fn scrolling_is_decoupled<P, D>(before: App<P, D>, after: App<P, D>, effect: Effect)
    where
        P: Fn(&[u8]) -> Header,
        D: Fn(&[u8], usize, Architecture, Bitness) -> Option<(String, usize)>,
    requires
        before.effected(after, effect),
    ensures
        effect is ScrollRows ==> after.state.assembly_scroll == before.state.assembly_scroll,
        effect is ScrollAssembly ==> after.state.scroll == before.state.scroll,
{
}

impl Ui {
    /// The state in which the application starts: the info pane shows
    /// text, no popup is open.
    pub fn new() -> (ui: Ui)
        ensures
            ui == (Ui { info_mode: InfoMode::Text, popup: None, needs_to_exit: false }),
    {
        Ui { info_mode: InfoMode::Text, popup: None, needs_to_exit: false }
    }
}

} // verus!
