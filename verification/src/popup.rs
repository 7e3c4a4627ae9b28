//! The popups of the application: what each one says and where it stands.

use vstd::prelude::*;
use vstd::string::*;

verus! {

/// The popup that is open. The flag of the three questions tells whether
/// "Yes" is selected.
#[derive(Clone, Copy, Debug, PartialEq, Eq, Structural)]
pub enum PopupState {
    SaveAndQuit(bool),
    Save(bool),
    QuitDirtySave(bool),
    Help,
}

/// A colour of text or background; `Plain` leaves the terminal's own.
#[derive(Clone, Copy, Debug, PartialEq, Eq, Structural)]
pub enum Paint {
    Plain,
    Green,
    Red,
    White,
    Black,
}

/// A run of text in one style.
#[derive(Debug, PartialEq, Eq)]
pub struct Piece {
    pub text: String,
    pub foreground: Paint,
    pub background: Paint,
}

/// Mathematical content of a [`Piece`].
pub struct PieceView {
    pub text: Seq<char>,
    pub foreground: Paint,
    pub background: Paint,
}

impl View for Piece {
    type V = PieceView;

    open spec fn view(&self) -> PieceView {
        PieceView { text: self.text@, foreground: self.foreground, background: self.background }
    }
}

/// One line of a popup.
#[derive(Debug, PartialEq, Eq)]
pub struct PopupLine {
    pub pieces: Vec<Piece>,
    /// The line starts at the left edge instead of being centred.
    pub left_aligned: bool,
}

/// Mathematical content of a [`PopupLine`].
pub struct PopupLineView {
    pub pieces: Seq<PieceView>,
    pub left_aligned: bool,
}

impl View for PopupLine {
    type V = PopupLineView;

    open spec fn view(&self) -> PopupLineView {
        PopupLineView { pieces: self.pieces@.map_values(|p: Piece| p@), left_aligned: self.left_aligned }
    }
}

/// A rectangle of the screen.
#[derive(Clone, Copy, Debug, PartialEq, Eq, Structural)]
pub struct Area {
    pub x: u16,
    pub y: u16,
    pub width: u16,
    pub height: u16,
}

/// A popup ready to be drawn.
#[derive(Debug, PartialEq, Eq)]
pub struct PopupContent {
    pub title: String,
    pub lines: Vec<PopupLine>,
    pub area: Area,
}

/// Plain text.
pub open spec fn plain(text: Seq<char>) -> PieceView {
    PieceView { text, foreground: Paint::Plain, background: Paint::Plain }
}

/// Text in colour `foreground` on the terminal's background.
pub open spec fn tinted(text: Seq<char>, foreground: Paint) -> PieceView {
    PieceView { text, foreground, background: Paint::Plain }
}

/// Text in colour `foreground` on `background`.
pub open spec fn painted(text: Seq<char>, foreground: Paint, background: Paint) -> PieceView {
    PieceView { text, foreground, background }
}

/// A centred line of plain text.
pub open spec fn text_line(text: Seq<char>) -> PopupLineView {
    PopupLineView { pieces: seq![plain(text)], left_aligned: false }
}

/// The line with the two answers, the selected one highlighted.
pub open spec fn answer_line(yes_selected: bool) -> PopupLineView {
    PopupLineView {
        pieces: seq![
            if yes_selected {
                painted("Yes"@, Paint::White, Paint::Green)
            } else {
                tinted("Yes"@, Paint::Green)
            },
            plain("  "@),
            if yes_selected {
                tinted("No"@, Paint::Red)
            } else {
                painted("No"@, Paint::White, Paint::Red)
            },
        ],
        left_aligned: false,
    }
}

/// A line of the help page: a key in green and what it does.
pub open spec fn key_line(key: Seq<char>, effect: Seq<char>) -> PopupLineView {
    PopupLineView { pieces: seq![tinted(key, Paint::Green), plain(effect)], left_aligned: true }
}

/// The title of a popup.
pub open spec fn popup_title(state: PopupState) -> Seq<char> {
    match state {
        PopupState::SaveAndQuit(_) => "Save and Quit"@,
        PopupState::Save(_) => "Save"@,
        PopupState::QuitDirtySave(_) => "Quit"@,
        PopupState::Help => "Help"@,
    }
}

/// The lines of a popup.
pub open spec fn popup_lines(state: PopupState) -> Seq<PopupLineView> {
    match state {
        PopupState::SaveAndQuit(yes) => seq![
            text_line("The file will be saved and the program will quit."@),
            text_line("Are you sure?"@),
            answer_line(yes),
        ],
        PopupState::Save(yes) => seq![text_line("The file will be saved."@), text_line("Are you sure?"@), answer_line(yes)],
        PopupState::QuitDirtySave(yes) => seq![
            text_line("The file has been modified."@),
            text_line("Do you want to save before quitting?"@),
            answer_line(yes),
        ],
        PopupState::Help => seq![
            key_line("^S"@, ": Save"@),
            key_line("^X"@, ": Save and Quit"@),
            key_line("^C"@, ": Quit"@),
            key_line(" V"@, ": Switch info view"@),
            key_line(" H"@, ": Help"@),
            PopupLineView { pieces: seq![painted("Ok"@, Paint::Black, Paint::White)], left_aligned: false },
        ],
    }
}

/// Width and height of a popup: the help page is narrower and taller than
/// the questions.
pub open spec fn popup_size(state: PopupState) -> (int, int) {
    match state {
        PopupState::Help => (30, 8),
        _ => (54, 5),
    }
}

/// The popup can be centred on a frame of the given size: half its width
/// fits left of the middle column and half its height above the middle row.
pub open spec fn popup_fits(state: PopupState, frame_width: u16, frame_height: u16) -> bool {
    &&& frame_width as int / 2 >= popup_size(state).0 / 2
    &&& frame_height as int / 2 >= popup_size(state).1 / 2
}

/// Where a popup stands: centred on the frame.
pub open spec fn popup_area(state: PopupState, frame_width: u16, frame_height: u16) -> Area {
    Area {
        x: (frame_width as int / 2 - popup_size(state).0 / 2) as u16,
        y: (frame_height as int / 2 - popup_size(state).1 / 2) as u16,
        width: popup_size(state).0 as u16,
        height: popup_size(state).1 as u16,
    }
}

/// The lines of a popup as mathematics.
pub open spec fn line_views(lines: Seq<PopupLine>) -> Seq<PopupLineView> {
    lines.map_values(|line: PopupLine| line@)
}

fn piece(text: &str, foreground: Paint, background: Paint) -> (p: Piece)
    ensures
        p@ == painted(text@, foreground, background),
{
    Piece { text: String::from_str(text), foreground, background }
}

fn centred_text(text: &str) -> (line: PopupLine)
    ensures
        line@ == text_line(text@),
{
    let mut pieces: Vec<Piece> = Vec::new();
    pieces.push(piece(text, Paint::Plain, Paint::Plain));
    let line = PopupLine { pieces, left_aligned: false };
    assert(line@.pieces =~= text_line(text@).pieces);
    line
}

fn answers(yes_selected: bool) -> (line: PopupLine)
    ensures
        line@ == answer_line(yes_selected),
{
    let mut pieces: Vec<Piece> = Vec::new();
    if yes_selected {
        pieces.push(piece("Yes", Paint::White, Paint::Green));
    } else {
        pieces.push(piece("Yes", Paint::Green, Paint::Plain));
    }
    pieces.push(piece("  ", Paint::Plain, Paint::Plain));
    if yes_selected {
        pieces.push(piece("No", Paint::Red, Paint::Plain));
    } else {
        pieces.push(piece("No", Paint::White, Paint::Red));
    }
    let line = PopupLine { pieces, left_aligned: false };
    assert(line@.pieces =~= answer_line(yes_selected).pieces);
    line
}

fn key_help(key: &str, effect: &str) -> (line: PopupLine)
    ensures
        line@ == key_line(key@, effect@),
{
    let mut pieces: Vec<Piece> = Vec::new();
    pieces.push(piece(key, Paint::Green, Paint::Plain));
    pieces.push(piece(effect, Paint::Plain, Paint::Plain));
    let line = PopupLine { pieces, left_aligned: true };
    assert(line@.pieces =~= key_line(key@, effect@).pieces);
    line
}

fn question(first: &str, second: &str, yes_selected: bool) -> (lines: Vec<PopupLine>)
    ensures
        line_views(lines@) == seq![text_line(first@), text_line(second@), answer_line(yes_selected)],
{
    let mut lines: Vec<PopupLine> = Vec::new();
    lines.push(centred_text(first));
    lines.push(centred_text(second));
    lines.push(answers(yes_selected));
    assert(line_views(lines@) =~= seq![text_line(first@), text_line(second@), answer_line(yes_selected)]);
    lines
}

/// Tells whether the popup can be centred on a frame of the given size.
pub fn popup_can_stand(state: &PopupState, frame_width: u16, frame_height: u16) -> (ok: bool)
    ensures
        ok == popup_fits(*state, frame_width, frame_height),
{
    match state {
        PopupState::Help => frame_width / 2 >= 15 && frame_height / 2 >= 4,
        _ => frame_width / 2 >= 27 && frame_height / 2 >= 2,
    }
}

/// Title, lines and place of the popup `popup_state` on a frame of the
/// given size.
pub fn fill_popup(popup_state: &PopupState, frame_width: u16, frame_height: u16) -> (content: PopupContent)
    requires
        popup_fits(*popup_state, frame_width, frame_height),
    ensures
        content.title@ == popup_title(*popup_state),
        line_views(content.lines@) == popup_lines(*popup_state),
        content.area == popup_area(*popup_state, frame_width, frame_height),
{
    match popup_state {
        PopupState::SaveAndQuit(yes_selected) => PopupContent {
            title: String::from_str("Save and Quit"),
            lines: question("The file will be saved and the program will quit.", "Are you sure?", *yes_selected),
            area: Area { x: frame_width / 2 - 27, y: frame_height / 2 - 2, width: 54, height: 5 },
        },
        PopupState::Save(yes_selected) => PopupContent {
            title: String::from_str("Save"),
            lines: question("The file will be saved.", "Are you sure?", *yes_selected),
            area: Area { x: frame_width / 2 - 27, y: frame_height / 2 - 2, width: 54, height: 5 },
        },
        PopupState::QuitDirtySave(yes_selected) => PopupContent {
            title: String::from_str("Quit"),
            lines: question("The file has been modified.", "Do you want to save before quitting?", *yes_selected),
            area: Area { x: frame_width / 2 - 27, y: frame_height / 2 - 2, width: 54, height: 5 },
        },
        PopupState::Help => {
            let mut lines: Vec<PopupLine> = Vec::new();
            lines.push(key_help("^S", ": Save"));
            lines.push(key_help("^X", ": Save and Quit"));
            lines.push(key_help("^C", ": Quit"));
            lines.push(key_help(" V", ": Switch info view"));
            lines.push(key_help(" H", ": Help"));
            let mut pieces: Vec<Piece> = Vec::new();
            pieces.push(piece("Ok", Paint::Black, Paint::White));
            let last = PopupLine { pieces, left_aligned: false };
            assert(last@.pieces =~= seq![painted("Ok"@, Paint::Black, Paint::White)]);
            lines.push(last);
            assert(line_views(lines@) =~= popup_lines(PopupState::Help));
            PopupContent {
                title: String::from_str("Help"),
                lines,
                area: Area { x: frame_width / 2 - 15, y: frame_height / 2 - 4, width: 30, height: 8 },
            }
        },
    }
}

} // verus!
