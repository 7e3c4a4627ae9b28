use hexscope::context::NotificationLevel;
use hexscope::decoder::Instruction;
use hexscope::geometry::Geometry;
use hexscope::header::{Architecture, Bitness, FormatKind, Header, Section};
use hexscope::scroll::{clamp_index, shift_index, visible_range, Cursor, ViewState};
use hexscope::session::{App, Pane};

fn toy(bytes: &[u8], offset: usize, _architecture: Architecture, _bitness: Bitness) -> Option<(String, usize)> {
    match bytes[offset] {
        0x90 => Some(("nop".to_string(), 1)),
        0xC3 => Some(("ret".to_string(), 1)),
        0xB8 if offset + 5 <= bytes.len() => Some(("mov eax, imm32".to_string(), 5)),
        _ => None,
    }
}

fn no_header(_bytes: &[u8]) -> Header {
    Header::Unrecognized
}

/// A header whose magic byte `7F` names one executable section of four
/// bytes behind it.
fn magic_header(bytes: &[u8]) -> Header {
    if bytes.len() >= 5 && bytes[0] == 0x7F {
        Header::Recognized {
            format_kind: FormatKind::Elf,
            architecture: Architecture::X86,
            bitness: Bitness::Bit32,
            entry_point: 1,
            sections: vec![Section { name: ".text".to_string(), start_offset: 1, size: 4, is_executable: true }],
        }
    } else {
        Header::Unrecognized
    }
}

fn sample(len: usize) -> Vec<u8> {
    (0..len).map(|i| [0x90u8, 0xC3, 0x41, 0xB8, 0x00][i % 5]).collect()
}

fn open(len: usize, width: u16) -> App<fn(&[u8]) -> Header, fn(&[u8], usize, Architecture, Bitness) -> Option<(String, usize)>> {
    App::new("sample.bin".to_string(), sample(len), (width, 24), no_header, toy)
}

#[test]
fn a_new_session_starts_at_the_top() {
    let app = open(100, 80);
    assert_eq!(app.path, "sample.bin");
    assert_eq!(app.data, sample(100));
    assert_eq!(app.header, Header::Unrecognized);
    assert_eq!(app.geometry, Geometry { block_size: 8, blocks_per_row: 1 });
    assert_eq!(app.screen_size, (80, 24));
    assert_eq!(app.focus, Pane::Hex);
    assert_eq!(
        app.state,
        ViewState { scroll: 0, assembly_scroll: 0, cursor: Cursor { column: 0, row: 0 }, dirty: false }
    );
    assert_eq!(app.logger.len(), 0);
    assert_eq!(app.index.offsets[0], 0);
    assert_eq!(app.row_count(Pane::Hex), 13);
    assert_eq!(app.row_count(Pane::Address), 13);
    assert_eq!(app.row_count(Pane::Text), 13);
    assert_eq!(app.row_count(Pane::Assembly), app.index.len());
    assert_eq!(app.column_count(Pane::Hex), 8);
    assert_eq!(app.column_count(Pane::Assembly), 1);
}

#[test]
fn saving_without_edits_writes_the_bytes_that_were_read() {
    let data = sample(257);
    let mut app = App::new("f".to_string(), data.clone(), (120, 40), no_header, toy);
    assert_eq!(app.contents(), &data);
    app.scroll_by(3);
    app.assembly_scroll_by(5);
    app.on_resize(200, 50);
    app.set_focus(Pane::Text);
    app.log_header_info("H");
    assert_eq!(app.contents(), &data);
    assert!(!app.state.dirty);
}

#[test]
fn an_edit_writes_one_byte_and_marks_the_buffer() {
    let mut app = open(20, 80);
    let mut expected = sample(20);
    expected[7] = 0x90;
    app.apply_edit(7, 0x90);
    assert_eq!(app.data, expected);
    assert!(app.state.dirty);
    assert_eq!(app.contents(), &expected);
    app.mark_saved();
    assert!(!app.state.dirty);
    assert_eq!(app.data, expected);
}

#[test]
fn an_edit_decodes_the_buffer_again() {
    let data = vec![0x90, 0xB8, 1, 2, 3, 4, 0xC3];
    let mut app = App::new("f".to_string(), data, (80, 24), no_header, toy);
    assert_eq!(app.index.offsets, vec![0, 1, 6]);
    app.apply_edit(1, 0x90);
    assert_eq!(app.index.offsets, vec![0, 1, 2, 3, 4, 5, 6]);
    assert_eq!(app.index.instructions[1], Instruction { start_offset: 1, length: 1, text: "nop".to_string() });
    assert_eq!(app.index.instructions[2], Instruction { start_offset: 2, length: 1, text: "(invalid)".to_string() });
    app.apply_edit(1, 0xB8);
    assert_eq!(app.index.offsets, vec![0, 1, 6]);
}

#[test]
fn an_edit_may_change_how_the_file_is_recognised() {
    let data = vec![0x00, 0x90, 0x90, 0xC3, 0x90, 0x90, 0x90];
    let mut app = App::new("f".to_string(), data, (80, 24), magic_header, toy);
    assert_eq!(app.header, Header::Unrecognized);
    assert_eq!(app.index.offsets, vec![0, 1, 2, 3, 4, 5, 6]);
    app.assembly_scroll_by(6);
    assert_eq!(app.state.assembly_scroll, 6);
    app.apply_edit(0, 0x7F);
    assert_eq!(app.header.bitness(), Bitness::Bit32);
    assert_eq!(app.index.offsets, vec![1, 2, 3, 4]);
    assert_eq!(app.state.assembly_scroll, 3);
    assert_eq!(app.state.scroll, 0);
    app.apply_edit(0, 0x00);
    assert_eq!(app.header, Header::Unrecognized);
    assert_eq!(app.index.len(), 7);
    assert_eq!(app.state.assembly_scroll, 3);
}

#[test]
fn scrolling_the_rows_leaves_the_assembly_pane() {
    let mut app = open(100, 80);
    app.assembly_scroll_by(4);
    for n in [1isize, 5, -2, 100, -100, 0] {
        let before = app.state.assembly_scroll;
        app.scroll_by(n);
        assert_eq!(app.state.assembly_scroll, before);
    }
    assert_eq!(app.state.assembly_scroll, 4);
}

#[test]
fn scrolling_the_assembly_pane_leaves_the_rows() {
    let mut app = open(100, 80);
    app.scroll_by(3);
    for n in [1isize, 5, -2, 1000, -1000, 0] {
        let before = app.state.scroll;
        app.assembly_scroll_by(n);
        assert_eq!(app.state.scroll, before);
    }
    assert_eq!(app.state.scroll, 3);
}

#[test]
fn scrolling_stays_inside_the_rows() {
    let mut app = open(100, 80);
    app.scroll_by(5);
    assert_eq!(app.state.scroll, 5);
    app.scroll_by(-2);
    assert_eq!(app.state.scroll, 3);
    app.scroll_by(-4);
    assert_eq!(app.state.scroll, 0);
    app.scroll_by(12);
    assert_eq!(app.state.scroll, 12);
    app.scroll_by(1);
    assert_eq!(app.state.scroll, 12);
    app.scroll_by(isize::MAX);
    assert_eq!(app.state.scroll, 12);
    app.scroll_by(isize::MIN);
    assert_eq!(app.state.scroll, 0);
    let last = app.index.len() - 1;
    app.assembly_scroll_by(isize::MAX);
    assert_eq!(app.state.assembly_scroll, last);
    app.assembly_scroll_by(-1);
    assert_eq!(app.state.assembly_scroll, last - 1);
}

#[test]
fn the_window_of_a_pane_ends_with_its_rows() {
    let mut app = open(100, 80);
    assert_eq!(app.visible_row_range(Pane::Hex, 10), (0, 10));
    assert_eq!(app.visible_row_range(Pane::Hex, 22), (0, 13));
    assert_eq!(app.visible_row_range(Pane::Hex, 0), (0, 0));
    app.scroll_by(8);
    assert_eq!(app.visible_row_range(Pane::Address, 10), (8, 13));
    assert_eq!(app.visible_row_range(Pane::Text, 3), (8, 11));
    assert_eq!(app.visible_row_range(Pane::Hex, usize::MAX), (8, 13));
    assert_eq!(app.visible_row_range(Pane::Assembly, 5), (0, 5));
    app.assembly_scroll_by(2);
    assert_eq!(app.visible_row_range(Pane::Assembly, 5), (2, 7));
    let count = app.index.len();
    assert_eq!(app.visible_row_range(Pane::Assembly, count + 9), (2, count));
}

#[test]
fn a_resize_computes_the_geometry_anew_and_clamps() {
    let mut app = open(100, 80);
    app.scroll_by(12);
    app.assembly_scroll_by(7);
    let offsets = app.index.offsets.clone();
    app.on_resize(200, 50);
    assert_eq!(app.screen_size, (200, 50));
    assert_eq!(app.geometry, Geometry { block_size: 8, blocks_per_row: 4 });
    assert_eq!(app.row_count(Pane::Hex), 4);
    assert_eq!(app.state.scroll, 3);
    assert_eq!(app.state.assembly_scroll, 7);
    assert_eq!(app.index.offsets, offsets);
    assert_eq!(app.data, sample(100));
    app.on_resize(80, 24);
    assert_eq!(app.geometry, Geometry { block_size: 8, blocks_per_row: 1 });
    assert_eq!(app.state.scroll, 3);
}

#[test]
fn the_cursor_is_kept_inside_the_focused_pane() {
    let mut app = open(100, 200);
    app.state.cursor = Cursor { column: 31, row: 3 };
    app.on_resize(80, 24);
    assert_eq!(app.state.cursor, Cursor { column: 7, row: 3 });
    app.state.cursor = Cursor { column: 5, row: 12 };
    app.on_resize(200, 24);
    assert_eq!(app.state.cursor, Cursor { column: 5, row: 3 });
    app.set_focus(Pane::Assembly);
    assert_eq!(app.focus, Pane::Assembly);
    assert_eq!(app.state.cursor, Cursor { column: 0, row: 3 });
    app.set_focus(Pane::Address);
    assert_eq!(app.state.cursor, Cursor { column: 0, row: 3 });
}

#[test]
fn opening_another_file_replaces_the_state() {
    let mut app = open(100, 80);
    app.scroll_by(4);
    app.assembly_scroll_by(9);
    app.apply_edit(0, 0xC3);
    app.set_focus(Pane::Text);
    app.open("other.bin".to_string(), vec![0xC3, 0x90]);
    assert_eq!(app.path, "other.bin");
    assert_eq!(app.data, vec![0xC3, 0x90]);
    assert_eq!(app.index.offsets, vec![0, 1]);
    assert_eq!(app.focus, Pane::Hex);
    assert_eq!(app.screen_size, (80, 24));
    assert_eq!(
        app.state,
        ViewState { scroll: 0, assembly_scroll: 0, cursor: Cursor { column: 0, row: 0 }, dirty: false }
    );
}

#[test]
fn an_empty_file_can_be_opened() {
    let mut app = App::new(String::new(), Vec::new(), (0, 0), no_header, toy);
    assert_eq!(app.row_count(Pane::Hex), 0);
    assert_eq!(app.index.len(), 0);
    app.scroll_by(3);
    app.assembly_scroll_by(3);
    assert_eq!(app.state.scroll, 0);
    assert_eq!(app.state.assembly_scroll, 0);
    assert_eq!(app.visible_row_range(Pane::Hex, 10), (0, 0));
    assert_eq!(app.visible_row_range(Pane::Assembly, 10), (0, 0));
    let views = app.views();
    assert!(views.hex.is_empty());
}

#[test]
fn the_views_of_a_session_follow_its_buffer() {
    let mut app = App::new("f".to_string(), b"0123456789".to_vec(), (80, 24), no_header, toy);
    let views = app.views();
    assert_eq!(views.text, vec!["01234567".to_string(), "89".to_string()]);
    assert_eq!(views.hex[1], "38 39 ");
    assert_eq!(views.address[1], "0000000000000008");
    app.apply_edit(9, b'!');
    assert_eq!(app.views().text[1], "8!");
    assert_eq!(app.views().hex[1], "38 21 ");
}

#[test]
fn the_header_is_reported_to_the_log() {
    let mut app = App::new("f".to_string(), vec![0x7F, 0x90, 0x90, 0x90, 0xC3, 0x00], (80, 24), magic_header, toy);
    app.log_header_info("H");
    let lines: Vec<&str> = app.logger.entries.iter().map(|entry| entry.message.as_str()).collect();
    assert_eq!(
        lines,
        vec![
            "File type: Elf",
            "Architecture: X86",
            "Bitness: 32",
            "Entry point: 0x1",
            "Section: .text: 0x1-0x5 (code)",
            "Press H for a list of commands.",
        ]
    );
    assert!(app.logger.entries.iter().all(|entry| entry.level == NotificationLevel::Info));
    let mut plain = open(4, 80);
    plain.log_header_info("F1");
    plain.log_header_info("F1");
    let lines: Vec<&str> = plain.logger.entries.iter().map(|entry| entry.message.as_str()).collect();
    assert_eq!(
        lines,
        vec![
            "No header found. Assuming 64-bit.",
            "Press F1 for a list of commands.",
            "No header found. Assuming 64-bit.",
            "Press F1 for a list of commands.",
        ]
    );
}

#[test]
fn positions_are_clamped_and_shifted() {
    assert_eq!(clamp_index(5, 0), 0);
    assert_eq!(clamp_index(5, 5), 4);
    assert_eq!(clamp_index(4, 5), 4);
    assert_eq!(clamp_index(0, 1), 0);
    assert_eq!(shift_index(3, 2, 10), 5);
    assert_eq!(shift_index(3, -3, 10), 0);
    assert_eq!(shift_index(3, -4, 10), 0);
    assert_eq!(shift_index(3, 6, 10), 9);
    assert_eq!(shift_index(3, 7, 10), 9);
    assert_eq!(shift_index(30, -1, 10), 9);
    assert_eq!(shift_index(30, -25, 10), 5);
    assert_eq!(shift_index(30, 1, 10), 9);
    assert_eq!(shift_index(3, 1, 0), 0);
    assert_eq!(shift_index(usize::MAX, isize::MIN, usize::MAX), usize::MAX - (1usize << (usize::BITS - 1)));
    assert_eq!(visible_range(2, 3, 10), (2, 5));
    assert_eq!(visible_range(8, 3, 10), (8, 10));
    assert_eq!(visible_range(12, 3, 10), (10, 10));
}

#[test]
fn the_view_state_scrolls_one_domain_at_a_time() {
    let mut state = ViewState::new();
    state.scroll_by(4, 10);
    assert_eq!(state, ViewState { scroll: 4, assembly_scroll: 0, cursor: Cursor { column: 0, row: 0 }, dirty: false });
    state.assembly_scroll_by(7, 5);
    assert_eq!(state, ViewState { scroll: 4, assembly_scroll: 4, cursor: Cursor { column: 0, row: 0 }, dirty: false });
    state.cursor = Cursor { column: 9, row: 9 };
    state.dirty = true;
    state.clamp(3, 2, 4, 5);
    assert_eq!(state, ViewState { scroll: 2, assembly_scroll: 1, cursor: Cursor { column: 3, row: 4 }, dirty: true });
}

#[test]
fn the_cursor_moves_inside_the_focused_pane() {
    let mut app = open(100, 80);
    app.move_cursor(3, 2);
    assert_eq!(app.state.cursor, Cursor { column: 3, row: 2 });
    app.move_cursor(10, 20);
    assert_eq!(app.state.cursor, Cursor { column: 7, row: 12 });
    app.move_cursor(-1, -20);
    assert_eq!(app.state.cursor, Cursor { column: 6, row: 0 });
    assert_eq!(app.state.scroll, 0);
    assert_eq!(app.state.assembly_scroll, 0);
    let mut state = ViewState::new();
    state.move_cursor(2, 3, 4, 5);
    state.move_cursor(5, -1, 4, 5);
    assert_eq!(state, ViewState { scroll: 0, assembly_scroll: 0, cursor: Cursor { column: 3, row: 2 }, dirty: false });
}
