use zar::config::{ConfigurableKey, KeyBindings, KeyCode, KeyEvent, KeyModifiers};
use zar::input::{Action, CommandEditAction};
use zar::state::InputMode;

fn key(code: KeyCode) -> KeyEvent {
    KeyEvent::new(code, KeyModifiers::none())
}

#[test]
fn function_keys_open_transfer_dialogs_in_normal_mode() {
    let bindings = KeyBindings::default();
    assert_eq!(bindings.resolve(key(KeyCode::F(3)), InputMode::Normal), Some(Action::BeginPreview));
    assert_eq!(bindings.resolve(key(KeyCode::F(1)), InputMode::Normal), Some(Action::OpenLeftSourceMenu));
    assert_eq!(bindings.resolve(key(KeyCode::F(4)), InputMode::Normal), Some(Action::BeginAddLocation));
}

#[test]
fn source_menu_maps_navigation_keys() {
    let bindings = KeyBindings::default();
    assert_eq!(bindings.resolve(key(KeyCode::Left), InputMode::SourceMenu), Some(Action::SourceMenuBack));
    assert_eq!(bindings.resolve(key(KeyCode::Enter), InputMode::SourceMenu), Some(Action::SourceMenuSelect));
}

#[test]
fn add_location_mode_maps_editing_keys() {
    let bindings = KeyBindings::default();
    assert_eq!(bindings.resolve(key(KeyCode::Right), InputMode::AddLocation), Some(Action::AddLocationFocusRight));
    assert_eq!(
        bindings.resolve(key(KeyCode::Char('x')), InputMode::AddLocation),
        Some(Action::EditAddLocation(CommandEditAction::Insert('x')))
    );
}

#[test]
fn control_c_quits_in_every_mode() {
    let bindings = KeyBindings::default();
    let ctrl_c = KeyEvent::new(KeyCode::Char('c'), KeyModifiers::control_only());
    for mode in [InputMode::Normal, InputMode::Command, InputMode::Transfer, InputMode::Preview, InputMode::SourceMenu, InputMode::AddLocation] {
        assert_eq!(bindings.resolve(ctrl_c, mode), Some(Action::Quit));
    }
}

#[test]
fn normal_mode_uses_the_configured_bindings() {
    let bindings = KeyBindings::default();
    assert_eq!(bindings.resolve(key(KeyCode::Char('/')), InputMode::Normal), Some(Action::EnterCommandMode));
    assert_eq!(bindings.resolve(key(KeyCode::Char('q')), InputMode::Normal), Some(Action::Quit));
    assert_eq!(bindings.resolve(key(KeyCode::Tab), InputMode::Normal), Some(Action::SwitchPane));
    assert_eq!(bindings.resolve(key(KeyCode::Backspace), InputMode::Normal), Some(Action::GoParent));
    assert_eq!(bindings.resolve(key(KeyCode::F(5)), InputMode::Normal), Some(Action::BeginCopy));
    assert_eq!(bindings.resolve(key(KeyCode::Char('z')), InputMode::Normal), None);
}

#[test]
fn command_mode_edits_and_submits() {
    let bindings = KeyBindings::default();
    assert_eq!(
        bindings.resolve(key(KeyCode::Char('l')), InputMode::Command),
        Some(Action::EditCommand(CommandEditAction::Insert('l')))
    );
    assert_eq!(bindings.resolve(key(KeyCode::Enter), InputMode::Command), Some(Action::SubmitCommand));
    assert_eq!(bindings.resolve(key(KeyCode::Esc), InputMode::Command), Some(Action::CancelCommand));
}

#[test]
fn configurable_keys_parse_and_label() {
    assert_eq!(ConfigurableKey::parse("tab"), Some(ConfigurableKey::Tab));
    assert_eq!(ConfigurableKey::parse(":"), Some(ConfigurableKey::Char(':')));
    assert_eq!(ConfigurableKey::parse("spacebar"), None);
    assert_eq!(ConfigurableKey::Backspace.label(), "backspace");
    assert_eq!(ConfigurableKey::Char('/').label(), "/");
    assert!(ConfigurableKey::Char('q').matches(key(KeyCode::Char('q'))));
    assert!(!ConfigurableKey::Char('q').matches(KeyEvent::new(KeyCode::Char('q'), KeyModifiers::control_only())));
}
