use zar::app::{App, Effect, LocationEffect, MouseInput, MouseKind, resolve_transfer_destination};
use zar::config::Config;
use zar::history::{HistoryStore, TomlHistoryStore};
use zar::input::{Action, CommandEditAction};
use zar::profiles::LocalSourceProfile;
use zar::secrets::{PlaintextSecretStore, SecretStore};
use zar::source::{EntryKind, FileEntry, LocationPath, SourceCategory, SourceKind, SourceRef};
use zar::state::{ActivePane, AddLocationKind, AppState, InputMode, PaneState, SourceMenuLevel, TransferControl, TransferOperation};
use zar::ui::Rect;

fn file(dir: &str, name: &str, kind: EntryKind) -> FileEntry {
    FileEntry { name: name.to_string(), path: LocationPath::Local(format!("{dir}/{name}")), kind, is_hidden: false }
}

fn pane(dir: &str, entries: Vec<FileEntry>) -> PaneState {
    PaneState::new(
        SourceRef::InlineLocal { path: dir.to_string(), label: "Tmp".to_string() },
        SourceKind::Local,
        "Tmp".to_string(),
        LocationPath::Local(dir.to_string()),
        entries,
    )
}

fn app_with(config: Config, left: PaneState, right: PaneState) -> App {
    App::new(AppState::new(config, left, right), PlaintextSecretStore::new(), TomlHistoryStore::new())
}

fn default_app() -> App {
    app_with(
        Config::default(),
        pane("/left", vec![file("/left", "report.txt", EntryKind::File), file("/left", "sub", EntryKind::Directory)]),
        pane("/right", Vec::new()),
    )
}

fn act(app: &mut App, action: Action) -> Effect {
    app.handle_action(action).expect("action")
}

fn type_text(app: &mut App, text: &str) {
    for ch in text.chars() {
        act(app, Action::EditAddLocation(CommandEditAction::Insert(ch)));
    }
}

#[test]
fn source_menu_opens_and_lists_categories() {
    let mut app = default_app();
    act(&mut app, Action::OpenLeftSourceMenu);
    assert_eq!(app.state.mode, InputMode::SourceMenu);
    assert!(matches!(app.state.source_menu.as_ref().expect("menu").level, SourceMenuLevel::Categories));
}

#[test]
fn add_location_dialog_saves_ftp_profile_and_secret() {
    let mut app = default_app();
    act(&mut app, Action::BeginAddLocation);
    act(&mut app, Action::AddLocationFocusRight);
    act(&mut app, Action::AddLocationFocusDown);
    type_text(&mut app, "Archive");
    act(&mut app, Action::AddLocationFocusDown);
    type_text(&mut app, "ftp://alice@ftp.example.com/incoming");
    act(&mut app, Action::AddLocationFocusDown);
    type_text(&mut app, "ftp-pass");
    let effect = act(&mut app, Action::SubmitAddLocation);
    assert!(matches!(effect, Effect::Location(LocationEffect::Persist)));
    let profile = app.state.config.sources.ftp.get("archive").expect("profile");
    assert_eq!(profile.host, "ftp.example.com");
    assert_eq!(profile.username, "alice");
    assert_eq!(profile.initial_path, "/incoming");
    assert_eq!(app.secrets.ftp_password("archive"), Some("ftp-pass"));
    assert_eq!(app.state.mode, InputMode::Normal);
    assert_eq!(app.state.status.text, "saved ftp location: Archive");
}

#[test]
fn copy_dialog_proposes_the_other_pane_and_asks_for_the_copy() {
    let mut app = default_app();
    act(&mut app, Action::BeginCopy);
    let dialog = app.state.transfer.clone().expect("transfer dialog");
    assert_eq!(app.state.mode, InputMode::Transfer);
    assert_eq!(dialog.operation, TransferOperation::Copy);
    assert_eq!(dialog.destination, "/right");
    match act(&mut app, Action::SubmitTransfer) {
        Effect::CopyOrMove { operation, source, destination, same_source } => {
            assert_eq!(operation, TransferOperation::Copy);
            assert_eq!(source, LocationPath::Local("/left/report.txt".to_string()));
            assert_eq!(destination, LocationPath::Local("/right".to_string()));
            assert!(!same_source);
            let target = resolve_transfer_destination(destination, &source, true);
            assert_eq!(target, LocationPath::Local("/right/report.txt".to_string()));
            app.finish_transfer(&target, Vec::new(), vec![file("/right", "report.txt", EntryKind::File)]);
        },
        other => panic!("unexpected effect {other:?}"),
    }
    assert_eq!(app.state.mode, InputMode::Normal);
    assert!(app.state.transfer.is_none());
    assert_eq!(app.state.status.text, "copied report.txt to /right/report.txt");
    assert_eq!(app.state.right.entries.len(), 1);
    assert_eq!(app.history.entries().len(), 2);
}

#[test]
fn copy_refuses_directories_and_empty_destinations() {
    let mut app = default_app();
    act(&mut app, Action::MoveDown);
    act(&mut app, Action::BeginCopy);
    assert_eq!(app.state.status.text, "copy supports files only");
    assert!(app.state.transfer.is_none());
    act(&mut app, Action::MoveUp);
    act(&mut app, Action::BeginMove);
    for _ in 0..6 {
        act(&mut app, Action::EditTransfer(CommandEditAction::Backspace));
    }
    assert!(matches!(act(&mut app, Action::SubmitTransfer), Effect::Nothing));
    assert_eq!(app.state.status.text, "destination cannot be empty");
}

#[test]
fn create_directory_and_delete_dialogs() {
    let mut app = default_app();
    act(&mut app, Action::BeginCreateDirectory);
    assert_eq!(app.state.transfer.as_ref().expect("dialog").destination, "/left/new-dir");
    match act(&mut app, Action::SubmitTransfer) {
        Effect::CreateDirectory { destination } => assert_eq!(destination, LocationPath::Local("/left/new-dir".to_string())),
        other => panic!("unexpected effect {other:?}"),
    }
    act(&mut app, Action::CancelTransfer);
    assert_eq!(app.state.status.text, "file operation cancelled");
    act(&mut app, Action::BeginDelete);
    match act(&mut app, Action::SubmitTransfer) {
        Effect::Delete { target } => assert_eq!(target, LocationPath::Local("/left/report.txt".to_string())),
        other => panic!("unexpected effect {other:?}"),
    }
}

#[test]
fn transfer_focus_moves_between_controls() {
    let mut app = default_app();
    act(&mut app, Action::BeginCopy);
    act(&mut app, Action::TransferFocusUp);
    assert_eq!(app.state.transfer.as_ref().expect("dialog").focus, TransferControl::SourceField);
    act(&mut app, Action::TransferFocusDown);
    act(&mut app, Action::TransferFocusDown);
    act(&mut app, Action::TransferFocusRight);
    let dialog = app.state.transfer.as_ref().expect("dialog");
    assert_eq!(dialog.focus, TransferControl::CancelButton);
    assert_eq!(dialog.hovered, Some(TransferControl::CancelButton));
    act(&mut app, Action::SubmitTransfer);
    assert_eq!(app.state.mode, InputMode::Normal);
    assert_eq!(app.state.status.text, "file operation cancelled");
}

#[test]
fn opening_and_leaving_directories_goes_through_the_caller() {
    let mut app = default_app();
    act(&mut app, Action::MoveDown);
    match act(&mut app, Action::OpenSelection) {
        Effect::ChangeDirectory { pane, path } => {
            assert_eq!(pane, ActivePane::Left);
            assert_eq!(path, LocationPath::Local("/left/sub".to_string()));
            app.change_directory(pane, path, vec![file("/left/sub", "x", EntryKind::File)]);
        },
        other => panic!("unexpected effect {other:?}"),
    }
    assert_eq!(app.state.status.text, "active pane: /left/sub");
    assert_eq!(app.state.left.selected, 0);
    assert_eq!(
        app.history.last_path_for(&SourceRef::InlineLocal { path: "/left".to_string(), label: "Tmp".to_string() }),
        Some(LocationPath::Local("/left/sub".to_string()))
    );
    match act(&mut app, Action::GoParent) {
        Effect::ChangeDirectory { path, .. } => assert_eq!(path, LocationPath::Local("/left".to_string())),
        other => panic!("unexpected effect {other:?}"),
    }
    act(&mut app, Action::OpenSelection);
    assert_eq!(app.state.status.text, "x is not a directory");
}

#[test]
fn preview_reads_the_selected_file() {
    let mut app = default_app();
    match act(&mut app, Action::BeginPreview) {
        Effect::ReadPreview { path } => {
            assert_eq!(path, LocationPath::Local("/left/report.txt".to_string()));
            app.show_preview(path, "hello\nworld".to_string());
        },
        other => panic!("unexpected effect {other:?}"),
    }
    let preview = app.state.preview.as_ref().expect("preview");
    assert_eq!(app.state.mode, InputMode::Preview);
    assert_eq!(preview.title, "local: Tmp | /left");
    assert_eq!(preview.lines, vec!["hello".to_string(), "world".to_string()]);
    act(&mut app, Action::ClosePreview);
    assert_eq!(app.state.status.text, "preview closed");
}

#[test]
fn source_menu_switches_a_pane_to_a_saved_location() {
    let mut config = Config::default();
    config.sources.local.insert("home".to_string(), LocalSourceProfile { label: "Home".to_string(), path: "/home/a".to_string() });
    let mut app = app_with(config, pane("/left", Vec::new()), pane("/right", Vec::new()));
    act(&mut app, Action::OpenRightSourceMenu);
    assert_eq!(app.state.active_pane, ActivePane::Right);
    act(&mut app, Action::MoveDown);
    act(&mut app, Action::SourceMenuSelect);
    let menu = app.state.source_menu.as_ref().expect("menu");
    assert_eq!(menu.level, SourceMenuLevel::Items(SourceCategory::Local));
    assert_eq!(menu.items.len(), 1);
    assert_eq!(app.state.status.text, "source selection: Saved Local");
    match act(&mut app, Action::SourceMenuSelect) {
        Effect::SwitchSource { pane, source, path_hint } => {
            assert_eq!(pane, ActivePane::Right);
            assert_eq!(source, SourceRef::SavedLocal { id: "home".to_string() });
            let target = app.switch_target_path(&source, Some(path_hint), LocationPath::Local("/home/a".to_string()));
            app.replace_pane_source(pane, source, SourceKind::Local, "Home".to_string(), target, Vec::new());
            app.source_selected();
        },
        other => panic!("unexpected effect {other:?}"),
    }
    assert!(app.state.source_menu.is_none());
    assert_eq!(app.state.mode, InputMode::Normal);
    assert_eq!(app.state.status.text, "active pane: local: Home | /home/a");
}

#[test]
fn source_menu_back_returns_to_categories_then_closes() {
    let mut app = default_app();
    act(&mut app, Action::OpenLeftSourceMenu);
    act(&mut app, Action::SourceMenuSelect);
    act(&mut app, Action::SourceMenuBack);
    assert_eq!(app.state.source_menu.as_ref().expect("menu").level, SourceMenuLevel::Categories);
    act(&mut app, Action::SourceMenuBack);
    assert!(app.state.source_menu.is_none());
    assert_eq!(app.state.mode, InputMode::Normal);
}

#[test]
fn add_location_requires_a_label_target_and_password() {
    let mut app = default_app();
    act(&mut app, Action::BeginAddLocation);
    act(&mut app, Action::SubmitAddLocation);
    assert_eq!(app.state.status.text, "label cannot be empty");
    act(&mut app, Action::AddLocationFocusRight);
    assert_eq!(app.state.add_location.as_ref().expect("dialog").kind, AddLocationKind::Ftp);
    act(&mut app, Action::AddLocationFocusDown);
    type_text(&mut app, "Archive");
    act(&mut app, Action::SubmitAddLocation);
    assert_eq!(app.state.status.text, "target cannot be empty");
    act(&mut app, Action::AddLocationFocusDown);
    type_text(&mut app, "ftp://alice@ftp.example.com/incoming");
    act(&mut app, Action::SubmitAddLocation);
    assert_eq!(app.state.status.text, "ftp locations require a password");
    act(&mut app, Action::AddLocationFocusUp);
    act(&mut app, Action::AddLocationFocusUp);
    act(&mut app, Action::AddLocationFocusRight);
    act(&mut app, Action::AddLocationFocusDown);
    act(&mut app, Action::AddLocationFocusDown);
    for _ in 0..40 {
        act(&mut app, Action::EditAddLocation(CommandEditAction::Backspace));
    }
    type_text(&mut app, "http://x");
    let err = app.handle_action(Action::SubmitAddLocation).err();
    assert_eq!(err, Some("expected smb target".to_string()));
}

#[test]
fn add_local_location_waits_for_the_directory_check() {
    let mut app = default_app();
    act(&mut app, Action::BeginAddLocation);
    act(&mut app, Action::AddLocationFocusDown);
    type_text(&mut app, "Saved Place");
    act(&mut app, Action::AddLocationFocusDown);
    type_text(&mut app, "sub");
    match act(&mut app, Action::SubmitAddLocation) {
        Effect::Location(LocationEffect::SaveLocal { id, label, target }) => {
            assert_eq!(id, "saved-place");
            assert_eq!(label, "Saved Place");
            assert_eq!(target, "sub");
            let path = zar::app::local_location_candidate(&LocationPath::Local("/left".to_string()), &target).expect("path");
            assert_eq!(path, "/left/sub");
            let effect = app.save_local_location(id, label, path);
            assert!(matches!(effect, LocationEffect::Persist));
        },
        other => panic!("unexpected effect {other:?}"),
    }
    assert_eq!(app.state.config.sources.local.get("saved-place").expect("saved").path, "/left/sub");
    assert_eq!(app.state.status.text, "saved local location: Saved Place");
}

#[test]
fn footer_clicks_run_their_buttons() {
    let mut app = default_app();
    let frame = Rect { x: 0, y: 0, width: 120, height: 20 };
    app.handle_mouse(MouseInput { kind: MouseKind::Moved, column: 30, row: 18 }, frame).expect("move");
    assert_eq!(app.state.footer_hovered, Some(2));
    app.handle_mouse(MouseInput { kind: MouseKind::LeftReleased, column: 50, row: 18 }, frame).expect("click");
    assert_eq!(app.state.mode, InputMode::Transfer);
    assert_eq!(app.state.transfer.as_ref().expect("dialog").operation, TransferOperation::Copy);
    let dialog_frame = Rect { x: 0, y: 0, width: 60, height: 12 };
    app.handle_mouse(MouseInput { kind: MouseKind::LeftReleased, column: 36, row: 9 }, dialog_frame).expect("cancel");
    assert_eq!(app.state.mode, InputMode::Normal);
    assert_eq!(app.state.status.text, "file operation cancelled");
}

#[test]
fn command_mode_edits_and_submits_the_line() {
    let mut app = default_app();
    act(&mut app, Action::EnterCommandMode);
    assert_eq!(app.state.mode, InputMode::Command);
    for ch in "pwd".chars() {
        act(&mut app, Action::EditCommand(CommandEditAction::Insert(ch)));
    }
    match act(&mut app, Action::SubmitCommand) {
        Effect::RunCommand { text } => assert_eq!(text, "pwd"),
        other => panic!("unexpected effect {other:?}"),
    }
    assert_eq!(app.state.command.buffer, "");
    assert_eq!(app.state.mode, InputMode::Normal);
    act(&mut app, Action::SwitchPane);
    assert_eq!(app.state.status.text, "active pane: right");
    act(&mut app, Action::Quit);
    assert!(app.state.should_quit);
}

#[test]
fn mouse_events_use_the_drawn_areas() {
    let mut app = default_app();
    let slots: Vec<Rect> = (0..10).map(|i| Rect { x: i * 12, y: 17, width: 12, height: 3 }).collect();
    let areas = zar::ui::ScreenAreas { footer_slots: slots, transfer_dialog: None };
    app.handle_mouse_at(MouseInput { kind: MouseKind::Moved, column: 50, row: 18 }, &areas).expect("move");
    assert_eq!(app.state.footer_hovered, Some(4));
    app.handle_mouse_at(MouseInput { kind: MouseKind::LeftReleased, column: 50, row: 18 }, &areas).expect("click");
    assert_eq!(app.state.mode, InputMode::Transfer);
}

#[test]
fn ready_for_events_checks_cursors_and_counters() {
    let mut app = default_app();
    assert!(app.ready_for_events());
    app.state.command.buffer = "aé".to_string();
    app.state.command.cursor = 2;
    assert!(!app.ready_for_events());
    app.state.command.cursor = 3;
    assert!(app.ready_for_events());
    app.state.left.selected = usize::MAX;
    assert!(!app.ready_for_events());
}
