use zar::config::{Config, ConfigurableKey};
use zar::source::{EntryKind, FileEntry, LocationPath, SourceKind, SourceRef};
use zar::state::{
    ActivePane, AddLocationDialogState, AddLocationKind, AppState, CommandState, InputMode, PaneState, PreviewState,
    SourceMenuState, StatusMessage, TransferControl, TransferDialogState, TransferOperation, default_status_text,
};
use zar::source::SourceCategory;

fn entry(name: &str, kind: EntryKind) -> FileEntry {
    FileEntry { name: name.to_string(), path: LocationPath::Local(format!("/tmp/{name}")), kind, is_hidden: false }
}

fn pane_with(entries: Vec<FileEntry>) -> PaneState {
    PaneState::new(
        SourceRef::InlineLocal { path: "/tmp".to_string(), label: "Tmp".to_string() },
        SourceKind::Local,
        "Tmp".to_string(),
        LocationPath::Local("/tmp".to_string()),
        entries,
    )
}

#[test]
fn refresh_clamps_selection_when_entries_shrink() {
    let mut pane = pane_with(vec![entry("a.txt", EntryKind::File), entry("b.txt", EntryKind::File)]);
    pane.selected = 1;
    pane.refresh(vec![entry("a.txt", EntryKind::File)]);
    assert_eq!(pane.selected, 0);
    assert!(default_status_text(&Config::default()).contains("F1/F2"));
    assert_eq!(pane.cwd, LocationPath::Local("/tmp".to_string()));
}

#[test]
fn refresh_keeps_the_selected_name() {
    let mut pane = pane_with(vec![entry("a", EntryKind::File), entry("b", EntryKind::File), entry("c", EntryKind::File)]);
    pane.selected = 1;
    pane.last_error = Some("boom".to_string());
    pane.refresh(vec![entry("0", EntryKind::File), entry("a", EntryKind::File), entry("b", EntryKind::File)]);
    assert_eq!(pane.selected, 2);
    assert_eq!(pane.last_error, None);
}

#[test]
fn pane_selection_moves_within_the_listing() {
    let mut pane = pane_with(vec![entry("a", EntryKind::File), entry("b", EntryKind::File)]);
    pane.move_up();
    assert_eq!(pane.selected, 0);
    pane.move_down();
    pane.move_down();
    assert_eq!(pane.selected, 1);
    assert_eq!(pane.selected_entry().map(|e| e.name.clone()), Some("b".to_string()));
    assert_eq!(pane.title(), "local: Tmp | /tmp");
}

#[test]
fn ensure_visible_scrolls_to_the_selection() {
    let mut pane = pane_with((0..10).map(|i| entry(&format!("f{i}"), EntryKind::File)).collect());
    pane.selected = 7;
    pane.ensure_visible(3);
    assert_eq!(pane.scroll, 5);
    pane.selected = 2;
    pane.ensure_visible(3);
    assert_eq!(pane.scroll, 2);
    pane.ensure_visible(0);
    assert_eq!(pane.scroll, 2);
}

#[test]
fn clamp_selection_on_empty_listing_resets() {
    let mut pane = pane_with(Vec::new());
    pane.selected = 4;
    pane.scroll = 3;
    pane.clamp_selection();
    assert_eq!((pane.selected, pane.scroll), (0, 0));
}

#[test]
fn parent_target_stops_at_the_root() {
    let pane = pane_with(Vec::new());
    assert_eq!(pane.parent_target(), Some(LocationPath::Local("/".to_string())));
    let mut root = pane_with(Vec::new());
    root.cwd = LocationPath::Remote("/".to_string());
    assert_eq!(root.parent_target(), None);
}

#[test]
fn transfer_dialog_starts_at_the_end_of_the_destination() {
    let copy = TransferDialogState::new(
        TransferOperation::Copy,
        LocationPath::Local("/tmp/a".to_string()),
        "Tmp".to_string(),
        SourceKind::Local,
        "/dést".to_string(),
    );
    assert_eq!(copy.cursor, 6);
    assert_eq!(copy.focus, TransferControl::DestinationField);
    let delete = TransferDialogState::new(
        TransferOperation::Delete,
        LocationPath::Local("/tmp/a".to_string()),
        "Tmp".to_string(),
        SourceKind::Local,
        String::new(),
    );
    assert_eq!(delete.focus, TransferControl::ConfirmButton);
}

#[test]
fn transfer_operations_describe_themselves() {
    assert_eq!(TransferOperation::Copy.title(), "Copy File");
    assert_eq!(TransferOperation::CreateDirectory.destination_label(), "Path");
    assert_eq!(TransferOperation::Delete.destination_label(), "Target");
    assert_eq!(TransferOperation::Move.past_tense(), "moved");
    assert_eq!(TransferOperation::CreateDirectory.label(), "create directory");
    assert!(TransferOperation::Move.shows_source());
    assert!(!TransferOperation::Delete.edits_destination());
}

#[test]
fn preview_splits_lines_and_scrolls_within_bounds() {
    let mut preview = PreviewState::new("t".to_string(), LocationPath::Remote("/n".to_string()), "hello\r\nworld\n".to_string());
    assert_eq!(preview.lines, vec!["hello".to_string(), "world".to_string()]);
    preview.move_down(1);
    preview.move_down(1);
    assert_eq!(preview.scroll, 1);
    preview.move_up();
    preview.move_up();
    assert_eq!(preview.scroll, 0);
    let empty = PreviewState::new("t".to_string(), LocationPath::Remote("/n".to_string()), String::new());
    assert_eq!(empty.lines, vec![String::new()]);
}

#[test]
fn source_menu_lists_categories_in_order() {
    let menu = SourceMenuState::new(ActivePane::Right);
    assert_eq!(SourceMenuState::categories()[0], SourceCategory::History);
    assert_eq!(SourceMenuState::categories()[4], SourceCategory::Ssh);
    assert_eq!(menu.selected_category(), SourceCategory::History);
    assert_eq!(SourceCategory::Ftp.title(), "Saved FTP");
}

#[test]
fn add_location_kinds_cycle_both_ways() {
    for kind in [AddLocationKind::Local, AddLocationKind::Ftp, AddLocationKind::Smb, AddLocationKind::Ssh] {
        assert_eq!(kind.next().previous(), kind);
        assert_eq!(kind.previous().next(), kind);
    }
    assert_eq!(AddLocationKind::Ssh.next(), AddLocationKind::Local);
    assert_eq!(AddLocationKind::Local.target_label(), "Path");
    assert_eq!(AddLocationKind::Smb.target_example(), "smb://alice@nas/media/shows?workgroup=WORK");
    assert!(!AddLocationKind::Local.uses_secret());
    assert_eq!(AddLocationKind::Ftp.label(), "FTP");
    let dialog = AddLocationDialogState::new();
    assert_eq!(dialog.kind, AddLocationKind::Local);
}

#[test]
fn startup_status_shows_help_or_warnings() {
    let config = Config::default();
    let state = AppState::new(config, pane_with(Vec::new()), pane_with(Vec::new()));
    assert_eq!(
        state.status.text,
        "Tab switch pane | F1/F2 source | F4 add location | Enter open | Backspace up | / command | q quit"
    );
    assert_eq!(state.mode, InputMode::Normal);
    assert_eq!(state.active_pane, ActivePane::Left);

    let mut warned = Config::default();
    warned.startup_warnings = vec!["one".to_string(), "two".to_string()];
    let state = AppState::new(warned, pane_with(Vec::new()), pane_with(Vec::new()));
    assert_eq!(state.status.text, "one | two");
}

#[test]
fn command_state_clears() {
    let mut command = CommandState::new(ConfigurableKey::Char(':'));
    command.buffer.push_str("pwd");
    command.cursor = 3;
    command.clear();
    assert_eq!(command.buffer, "");
    assert_eq!(command.cursor, 0);
    assert_eq!(command.trigger_key, ConfigurableKey::Char(':'));
    assert_eq!(StatusMessage::error("x").text, "x");
}
