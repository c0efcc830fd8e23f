use zar::app::App;
use zar::commands::{CommandResult, CommandStep, apply_result, directory_changed_result, execute};
use zar::config::Config;
use zar::history::TomlHistoryStore;
use zar::secrets::PlaintextSecretStore;
use zar::source::{LocationPath, SourceKind, SourceRef};
use zar::state::{ActivePane, AppState, PaneState};

fn pane(path: &str) -> PaneState {
    PaneState::new(
        SourceRef::InlineLocal { path: path.to_string(), label: "Tmp".to_string() },
        SourceKind::Local,
        "Tmp".to_string(),
        LocationPath::Local(path.to_string()),
        Vec::new(),
    )
}

fn app() -> App {
    App::new(AppState::new(Config::default(), pane("/tmp"), pane("/srv")), PlaintextSecretStore::new(), TomlHistoryStore::new())
}

fn finished(step: CommandStep) -> CommandResult {
    match step {
        CommandStep::Finished(result) => result,
        CommandStep::ChangeDirectory(_) => panic!("expected a finished command"),
    }
}

#[test]
fn command_parser_covers_source_aware_commands() {
    let mut app = app();
    assert_eq!(finished(execute(&mut app, "pwd")), CommandResult::Success("/tmp".to_string()));
    match execute(&mut app, "cd child") {
        CommandStep::ChangeDirectory(path) => assert_eq!(path, LocationPath::Local("/tmp/child".to_string())),
        CommandStep::Finished(_) => panic!("cd asks for a directory change"),
    }
}

#[test]
fn pane_command_switches_the_active_pane() {
    let mut app = app();
    assert_eq!(finished(execute(&mut app, "  pane   right ")), CommandResult::Success("active pane: right".to_string()));
    assert_eq!(app.state.active_pane, ActivePane::Right);
    assert_eq!(finished(execute(&mut app, "pwd")), CommandResult::Success("/srv".to_string()));
    assert_eq!(finished(execute(&mut app, "pane up")), CommandResult::Error("usage: pane <left|right>".to_string()));
}

#[test]
fn other_commands_report_their_outcome() {
    let mut app = app();
    assert_eq!(finished(execute(&mut app, "   ")), CommandResult::Success("command cancelled".to_string()));
    assert_eq!(finished(execute(&mut app, "cd")), CommandResult::Error("cd requires a path".to_string()));
    assert_eq!(finished(execute(&mut app, "quit")), CommandResult::QuitRequested);
    assert_eq!(finished(execute(&mut app, "ls -l")), CommandResult::Error("unknown command: ls".to_string()));
}

#[test]
fn results_go_to_the_status_line() {
    let mut app = app();
    apply_result(&mut app, CommandResult::Error("boom".to_string()));
    assert_eq!(app.state.status.text, "boom");
    apply_result(&mut app, directory_changed_result(&LocationPath::Local("/var".to_string())));
    assert_eq!(app.state.status.text, "active pane: /var");
    apply_result(&mut app, CommandResult::QuitRequested);
    assert!(app.state.should_quit);
}
