use hexscope::context::{AppContext, ContextError, ExportedCommands, Logger, NotificationLevel};
use hexscope::layout::{cursor_on_screen, editor_title, frame_layout, FrameLayout, InfoMode};
use hexscope::geometry::Geometry;
use hexscope::paths::{browse_target, find_dir_contents, go_to_path, path_canonicalize, BrowseError, BrowseTarget};
use hexscope::popup::{fill_popup, popup_can_stand, Area, Paint, Piece, PopupState};
use hexscope::report::{describe_section, report_header};
use hexscope::header::{Architecture, Bitness, FormatKind, Header, Section};
use hexscope::scroll::{Cursor, ViewState};

fn pairs(commands: &ExportedCommands) -> Vec<(String, String)> {
    commands.commands.iter().map(|c| (c.command.clone(), c.description.clone())).collect()
}

fn pair(command: &str, description: &str) -> (String, String) {
    (command.to_string(), description.to_string())
}

#[test]
fn a_new_context_is_empty() {
    let context = AppContext::new();
    assert_eq!(context.logger.len(), 0);
    assert_eq!(context.exported_commands.len(), 0);
    assert_eq!(context.plugin_index, None);
    assert_eq!(context.popup, None);
    let other = AppContext::default();
    assert_eq!(other.logger, context.logger);
    assert_eq!(other.exported_commands, context.exported_commands);
    assert_eq!(other.plugin_index, None);
    assert_eq!(other.popup, None);
}

#[test]
fn plugins_log_at_the_level_they_name() {
    let mut context = AppContext::new();
    context.log(0, "d");
    context.log(1, "i");
    context.log(2, "w");
    context.log(3, "e");
    context.log(200, "x");
    let seen: Vec<(NotificationLevel, &str)> =
        context.logger.entries.iter().map(|n| (n.level, n.message.as_str())).collect();
    assert_eq!(
        seen,
        vec![
            (NotificationLevel::Debug, "d"),
            (NotificationLevel::Info, "i"),
            (NotificationLevel::Warning, "w"),
            (NotificationLevel::Error, "e"),
            (NotificationLevel::Error, "x"),
        ]
    );
    assert_eq!(NotificationLevel::from_code(1), NotificationLevel::Info);
    let mut logger = Logger::new();
    logger.log(NotificationLevel::Warning, "careful");
    assert_eq!(logger.len(), 1);
}

#[test]
fn commands_are_exported_once_each() {
    let mut context = AppContext::new();
    assert_eq!(context.add_command("fill".to_string(), "Fill".to_string(), true), Ok(()));
    assert_eq!(context.add_command("zero".to_string(), "Zero".to_string(), true), Ok(()));
    assert_eq!(context.add_command("fill".to_string(), "Fill a range".to_string(), true), Ok(()));
    assert_eq!(pairs(&context.exported_commands), vec![pair("fill", "Fill a range"), pair("zero", "Zero")]);
    assert_eq!(context.exported_commands.find(&"zero".to_string()), Some(1));
    assert_eq!(context.exported_commands.find(&"Zero".to_string()), None);
    let error = context.add_command("gone".to_string(), "Gone".to_string(), false);
    assert_eq!(error, Err(ContextError::CommandFunctionMissing("gone".to_string())));
    assert_eq!(error.unwrap_err().message(), "Function 'gone' not found but needed to export the command");
    assert_eq!(context.exported_commands.len(), 2);
}

#[test]
fn commands_are_withdrawn_by_name() {
    let mut context = AppContext::new();
    for name in ["a", "b", "c"] {
        context.add_command(name.to_string(), name.to_uppercase(), true).unwrap();
    }
    assert_eq!(context.remove_command("b".to_string()), Ok(()));
    assert_eq!(pairs(&context.exported_commands), vec![pair("a", "A"), pair("c", "C")]);
    let error = context.remove_command("b".to_string());
    assert_eq!(error, Err(ContextError::CommandNotFound("b".to_string())));
    assert_eq!(error.unwrap_err().message(), "Command 'b' not found");
    assert_eq!(pairs(&context.exported_commands), vec![pair("a", "A"), pair("c", "C")]);
    let mut commands = ExportedCommands::new();
    assert!(!commands.remove_command(&"a".to_string()));
    commands.add_command("a".to_string(), "A".to_string());
    assert!(commands.remove_command(&"a".to_string()));
    assert_eq!(commands.len(), 0);
}

#[test]
fn one_popup_at_a_time() {
    let mut context = AppContext::new();
    context.plugin_index = Some(2);
    let missing = context.open_popup("draw".to_string(), false);
    assert_eq!(missing, Err(ContextError::PopupFunctionMissing("draw".to_string())));
    assert_eq!(missing.unwrap_err().message(), "Function 'draw' not found but needed to open the popup");
    assert_eq!(context.popup, None);
    assert_eq!(context.open_popup("draw".to_string(), true), Ok(()));
    assert_eq!(context.popup, Some((2, "draw".to_string())));
    let second = context.open_popup("other".to_string(), true);
    assert_eq!(second, Err(ContextError::PopupAlreadyOpen));
    assert_eq!(second.unwrap_err().message(), "Popup already open");
    assert_eq!(context.open_popup("other".to_string(), false), Err(ContextError::PopupAlreadyOpen));
    assert_eq!(context.popup, Some((2, "draw".to_string())));
}

fn texts(pieces: &[Piece]) -> Vec<(&str, Paint, Paint)> {
    pieces.iter().map(|p| (p.text.as_str(), p.foreground, p.background)).collect()
}

#[test]
fn the_questions_highlight_the_selected_answer() {
    let content = fill_popup(&PopupState::SaveAndQuit(true), 80, 24);
    assert_eq!(content.title, "Save and Quit");
    assert_eq!(content.area, Area { x: 13, y: 10, width: 54, height: 5 });
    assert_eq!(content.lines.len(), 3);
    assert_eq!(
        texts(&content.lines[0].pieces),
        vec![("The file will be saved and the program will quit.", Paint::Plain, Paint::Plain)]
    );
    assert_eq!(texts(&content.lines[1].pieces), vec![("Are you sure?", Paint::Plain, Paint::Plain)]);
    assert_eq!(
        texts(&content.lines[2].pieces),
        vec![("Yes", Paint::White, Paint::Green), ("  ", Paint::Plain, Paint::Plain), ("No", Paint::Red, Paint::Plain)]
    );
    assert!(content.lines.iter().all(|line| !line.left_aligned));
    let content = fill_popup(&PopupState::Save(false), 54, 4);
    assert_eq!(content.title, "Save");
    assert_eq!(content.area, Area { x: 0, y: 0, width: 54, height: 5 });
    assert_eq!(texts(&content.lines[0].pieces), vec![("The file will be saved.", Paint::Plain, Paint::Plain)]);
    assert_eq!(
        texts(&content.lines[2].pieces),
        vec![("Yes", Paint::Green, Paint::Plain), ("  ", Paint::Plain, Paint::Plain), ("No", Paint::White, Paint::Red)]
    );
    let content = fill_popup(&PopupState::QuitDirtySave(true), 100, 30);
    assert_eq!(content.title, "Quit");
    assert_eq!(texts(&content.lines[0].pieces), vec![("The file has been modified.", Paint::Plain, Paint::Plain)]);
    assert_eq!(
        texts(&content.lines[1].pieces),
        vec![("Do you want to save before quitting?", Paint::Plain, Paint::Plain)]
    );
}

#[test]
fn the_help_page_lists_the_keys() {
    let content = fill_popup(&PopupState::Help, 80, 24);
    assert_eq!(content.title, "Help");
    assert_eq!(content.area, Area { x: 25, y: 8, width: 30, height: 8 });
    let lines: Vec<String> =
        content.lines.iter().map(|l| l.pieces.iter().map(|p| p.text.as_str()).collect::<String>()).collect();
    assert_eq!(lines, vec!["^S: Save", "^X: Save and Quit", "^C: Quit", " V: Switch info view", " H: Help", "Ok"]);
    for line in &content.lines[..5] {
        assert!(line.left_aligned);
        assert_eq!(line.pieces[0].foreground, Paint::Green);
        assert_eq!(line.pieces[1].foreground, Paint::Plain);
    }
    assert!(!content.lines[5].left_aligned);
    assert_eq!(texts(&content.lines[5].pieces), vec![("Ok", Paint::Black, Paint::White)]);
}

#[test]
fn a_popup_needs_room_around_the_middle() {
    assert!(popup_can_stand(&PopupState::Help, 30, 8));
    assert!(!popup_can_stand(&PopupState::Help, 29, 8));
    assert!(!popup_can_stand(&PopupState::Help, 30, 7));
    assert!(popup_can_stand(&PopupState::Save(true), 54, 4));
    assert!(!popup_can_stand(&PopupState::Save(true), 53, 4));
    assert!(!popup_can_stand(&PopupState::SaveAndQuit(false), 54, 3));
    assert!(popup_can_stand(&PopupState::QuitDirtySave(false), u16::MAX, u16::MAX));
}

#[test]
fn the_panes_stand_side_by_side() {
    let g = Geometry { block_size: 8, blocks_per_row: 3 };
    assert_eq!(
        frame_layout(&g, InfoMode::Text, 160, 40),
        Some(FrameLayout {
            output: Area { x: 0, y: 39, width: 160, height: 1 },
            address: Area { x: 0, y: 0, width: 17, height: 39 },
            hex_editor: Area { x: 17, y: 0, width: 75, height: 39 },
            info_view: Area { x: 92, y: 0, width: 50, height: 39 },
        })
    );
    assert_eq!(
        frame_layout(&g, InfoMode::Assembly, 160, 40).map(|l| l.info_view),
        Some(Area { x: 92, y: 0, width: 66, height: 39 })
    );
    assert_eq!(frame_layout(&g, InfoMode::Assembly, 94, 40).map(|l| l.info_view.width), Some(0));
    assert_eq!(frame_layout(&g, InfoMode::Assembly, 93, 40), None);
    assert_eq!(frame_layout(&g, InfoMode::Text, 160, 1), None);
    assert!(frame_layout(&g, InfoMode::Text, 10, 2).is_some());
    let wide = Geometry { block_size: 8, blocks_per_row: 2000 };
    assert_eq!(frame_layout(&wide, InfoMode::Text, 160, 40), None);
    let huge = Geometry { block_size: usize::MAX, blocks_per_row: 1 };
    assert_eq!(frame_layout(&huge, InfoMode::Text, 160, 40), None);
}

#[test]
fn the_title_shows_whether_the_buffer_was_edited() {
    assert_eq!(editor_title(false), "Hex Editor");
    assert_eq!(editor_title(true), "Hex Editor *");
}

#[test]
fn the_cursor_falls_on_the_byte_it_names() {
    let g = Geometry { block_size: 8, blocks_per_row: 3 };
    let at = |column: usize, row: usize, scroll: usize| ViewState {
        scroll,
        assembly_scroll: 0,
        cursor: Cursor { column, row },
        dirty: false,
    };
    assert_eq!(cursor_on_screen(&g, &at(0, 0, 0), 20), Some((18, 1)));
    assert_eq!(cursor_on_screen(&g, &at(7, 2, 0), 20), Some((39, 3)));
    assert_eq!(cursor_on_screen(&g, &at(8, 12, 10), 20), Some((43, 3)));
    assert_eq!(cursor_on_screen(&g, &at(0, 9, 10), 20), None);
    assert_eq!(cursor_on_screen(&g, &at(0, 30, 10), 20), None);
    assert_eq!(cursor_on_screen(&g, &at(0, 29, 10), 20), Some((18, 20)));
    assert_eq!(cursor_on_screen(&g, &at(30000, 0, 0), 20), None);
    assert_eq!(cursor_on_screen(&g, &at(usize::MAX, 0, 0), 20), None);
}

#[test]
fn a_path_is_shown_relative_to_its_directory() {
    assert_eq!(path_canonicalize("/foo/bar/baz", Some("/foo/bar")), Ok("baz".to_string()));
    assert_eq!(path_canonicalize("/foo/bar", Some("/foo/bar/baz")), Ok("..".to_string()));
    assert_eq!(path_canonicalize("/foo/bar/quux", Some("/foo/bar/baz")), Ok("../quux".to_string()));
    assert_eq!(path_canonicalize("/foo/bar", None), Ok("/foo/bar".to_string()));
    assert_eq!(path_canonicalize("/foo/bar", Some("baz")), Ok("/foo/bar".to_string()));
    let error = path_canonicalize("foo", Some("/bar"));
    assert_eq!(error, Err(BrowseError::NotRelative("foo".to_string())));
    assert_eq!(error.unwrap_err().message(), "Failed to get relative path of \"foo\"");
}

#[test]
fn the_browser_offers_what_begins_with_what_was_typed() {
    let entries = || vec!["README.md".to_string(), "src".to_string(), "readme.txt".to_string(), "Cargo.toml".to_string()];
    assert_eq!(find_dir_contents(entries(), false, false, "re"), vec!["README.md", "readme.txt"]);
    assert_eq!(find_dir_contents(entries(), false, false, "RE"), vec!["README.md", "readme.txt"]);
    assert_eq!(find_dir_contents(entries(), true, false, ""), vec!["..", "README.md", "src", "readme.txt", "Cargo.toml"]);
    assert_eq!(find_dir_contents(entries(), true, true, ""), vec!["README.md", "src", "readme.txt", "Cargo.toml"]);
    assert_eq!(find_dir_contents(entries(), true, false, "."), vec![".."]);
    assert_eq!(find_dir_contents(entries(), true, false, "s"), vec!["src"]);
    assert_eq!(find_dir_contents(entries(), true, false, "x"), Vec::<String>::new());
    assert_eq!(find_dir_contents(Vec::new(), false, false, ""), Vec::<String>::new());
}

#[test]
fn the_browser_opens_the_entry_it_is_scrolled_to() {
    assert_eq!(go_to_path(3, 0, "re"), Ok(0));
    assert_eq!(go_to_path(3, 2, "re"), Ok(2));
    let error = go_to_path(0, 0, "re");
    assert_eq!(error, Err(BrowseError::NoMatch("re".to_string())));
    assert_eq!(error.unwrap_err().message(), "No files found that matches \"re\"");
}

#[test]
fn a_header_is_reported_line_by_line() {
    let header = Header::Recognized {
        format_kind: FormatKind::MachO,
        architecture: Architecture::PowerPc,
        bitness: Bitness::Bit64,
        entry_point: 0x1F40,
        sections: vec![
            Section { name: "__text".to_string(), start_offset: 0x1000, size: 0x200, is_executable: true },
            Section { name: "__data".to_string(), start_offset: 0x1200, size: 0, is_executable: false },
        ],
    };
    assert_eq!(
        report_header(&header, "F1"),
        vec![
            "File type: MachO",
            "Architecture: PowerPc",
            "Bitness: 64",
            "Entry point: 0x1F40",
            "Section: __text: 0x1000-0x1200 (code)",
            "Section: __data: 0x1200-0x1200",
            "Press F1 for a list of commands.",
        ]
    );
    assert_eq!(
        report_header(&Header::Unrecognized, "H"),
        vec!["No header found. Assuming 64-bit.", "Press H for a list of commands."]
    );
    let section = Section { name: "s".to_string(), start_offset: 0, size: 0, is_executable: true };
    assert_eq!(describe_section(&section), "s: 0x0-0x0 (code)");
}

#[test]
fn the_browser_lists_the_directory_that_was_typed() {
    assert_eq!(browse_target(true, true, Some(true)), BrowseTarget::Typed);
    assert_eq!(browse_target(true, true, None), BrowseTarget::Typed);
    assert_eq!(browse_target(true, false, Some(true)), BrowseTarget::Parent);
    assert_eq!(browse_target(true, false, Some(false)), BrowseTarget::Current);
    assert_eq!(browse_target(true, false, None), BrowseTarget::Current);
    assert_eq!(browse_target(false, true, Some(true)), BrowseTarget::Current);
    assert_eq!(browse_target(false, false, None), BrowseTarget::Current);
}
