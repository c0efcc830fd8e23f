//! What each key press means in each input mode.
use vstd::prelude::*;

use crate::config::{KeyBindings, KeyCode, KeyEvent, key_matches_spec};
use crate::state::InputMode;

verus! {

/// An edit of a one-line text field.
#[derive(Debug, Clone, Copy, PartialEq, Eq, Structural)]
pub enum CommandEditAction {
    Insert(char),
    Backspace,
    MoveCursorLeft,
    MoveCursorRight,
}

/// Something the user asked the application to do.
#[derive(Debug, Clone, Copy, PartialEq, Eq, Structural)]
pub enum Action {
    MoveUp,
    MoveDown,
    SwitchPane,
    OpenSelection,
    BeginPreview,
    GoParent,
    BeginCopy,
    BeginMove,
    BeginCreateDirectory,
    BeginDelete,
    BeginAddLocation,
    OpenLeftSourceMenu,
    OpenRightSourceMenu,
    SourceMenuBack,
    SourceMenuSelect,
    EnterCommandMode,
    EditCommand(CommandEditAction),
    EditTransfer(CommandEditAction),
    EditAddLocation(CommandEditAction),
    TransferFocusUp,
    TransferFocusDown,
    TransferFocusLeft,
    TransferFocusRight,
    AddLocationFocusUp,
    AddLocationFocusDown,
    AddLocationFocusLeft,
    AddLocationFocusRight,
    PreviewUp,
    PreviewDown,
    SubmitCommand,
    SubmitTransfer,
    SubmitAddLocation,
    CancelCommand,
    CancelTransfer,
    CancelAddLocation,
    ClosePreview,
    CloseSourceMenu,
    Quit,
    ClearStatus,
}

/// Control-C, the quit shortcut of every mode.
pub open spec fn is_ctrl_c(e: KeyEvent) -> bool {
    e.code == KeyCode::Char('c') && e.modifiers.is_control_only_spec()
}

/// The key `code` pressed without modifiers.
pub open spec fn plain(e: KeyEvent, code: KeyCode) -> bool {
    e.code == code && e.modifiers.is_empty_spec()
}

pub open spec fn resolve_normal_spec(b: KeyBindings, e: KeyEvent) -> Option<Action> {
    if is_ctrl_c(e) {
        Some(Action::Quit)
    } else if plain(e, KeyCode::F(1)) {
        Some(Action::OpenLeftSourceMenu)
    } else if plain(e, KeyCode::F(2)) {
        Some(Action::OpenRightSourceMenu)
    } else if key_matches_spec(b.enter_command_mode, e) {
        Some(Action::EnterCommandMode)
    } else if key_matches_spec(b.quit, e) {
        Some(Action::Quit)
    } else if key_matches_spec(b.switch_pane, e) {
        Some(Action::SwitchPane)
    } else if key_matches_spec(b.move_up, e) {
        Some(Action::MoveUp)
    } else if key_matches_spec(b.move_down, e) {
        Some(Action::MoveDown)
    } else if key_matches_spec(b.open, e) {
        Some(Action::OpenSelection)
    } else if plain(e, KeyCode::F(3)) {
        Some(Action::BeginPreview)
    } else if plain(e, KeyCode::F(4)) {
        Some(Action::BeginAddLocation)
    } else if key_matches_spec(b.parent, e) {
        Some(Action::GoParent)
    } else if plain(e, KeyCode::F(5)) {
        Some(Action::BeginCopy)
    } else if plain(e, KeyCode::F(6)) {
        Some(Action::BeginMove)
    } else if plain(e, KeyCode::F(7)) {
        Some(Action::BeginCreateDirectory)
    } else if plain(e, KeyCode::F(8)) {
        Some(Action::BeginDelete)
    } else if plain(e, KeyCode::Esc) {
        Some(Action::ClearStatus)
    } else {
        None
    }
}

/// Keys of a text field: Backspace, and characters typed without Control or
/// Alt.
pub open spec fn text_edit_spec(e: KeyEvent) -> Option<CommandEditAction> {
    if plain(e, KeyCode::Backspace) {
        Some(CommandEditAction::Backspace)
    } else {
        match e.code {
            KeyCode::Char(ch) => if e.modifiers.no_control_alt_spec() {
                Some(CommandEditAction::Insert(ch))
            } else {
                None
            },
            _ => None,
        }
    }
}

pub open spec fn resolve_command_spec(e: KeyEvent) -> Option<Action> {
    if is_ctrl_c(e) {
        Some(Action::Quit)
    } else if plain(e, KeyCode::Esc) {
        Some(Action::CancelCommand)
    } else if plain(e, KeyCode::Enter) {
        Some(Action::SubmitCommand)
    } else if plain(e, KeyCode::Left) {
        Some(Action::EditCommand(CommandEditAction::MoveCursorLeft))
    } else if plain(e, KeyCode::Right) {
        Some(Action::EditCommand(CommandEditAction::MoveCursorRight))
    } else {
        match text_edit_spec(e) {
            Some(edit) => Some(Action::EditCommand(edit)),
            None => None,
        }
    }
}

pub open spec fn resolve_transfer_spec(e: KeyEvent) -> Option<Action> {
    if is_ctrl_c(e) {
        Some(Action::Quit)
    } else if plain(e, KeyCode::Esc) {
        Some(Action::CancelTransfer)
    } else if plain(e, KeyCode::Enter) {
        Some(Action::SubmitTransfer)
    } else if plain(e, KeyCode::Up) {
        Some(Action::TransferFocusUp)
    } else if plain(e, KeyCode::Down) {
        Some(Action::TransferFocusDown)
    } else if plain(e, KeyCode::Left) {
        Some(Action::TransferFocusLeft)
    } else if plain(e, KeyCode::Right) {
        Some(Action::TransferFocusRight)
    } else {
        match text_edit_spec(e) {
            Some(edit) => Some(Action::EditTransfer(edit)),
            None => None,
        }
    }
}

pub open spec fn resolve_preview_spec(b: KeyBindings, e: KeyEvent) -> Option<Action> {
    if is_ctrl_c(e) {
        Some(Action::Quit)
    } else if key_matches_spec(b.quit, e) {
        Some(Action::Quit)
    } else if plain(e, KeyCode::Esc) || plain(e, KeyCode::F(3)) {
        Some(Action::ClosePreview)
    } else if plain(e, KeyCode::Up) {
        Some(Action::PreviewUp)
    } else if plain(e, KeyCode::Down) {
        Some(Action::PreviewDown)
    } else {
        None
    }
}

pub open spec fn resolve_source_menu_spec(e: KeyEvent) -> Option<Action> {
    if is_ctrl_c(e) {
        Some(Action::Quit)
    } else if plain(e, KeyCode::Esc) {
        Some(Action::CloseSourceMenu)
    } else if plain(e, KeyCode::Enter) {
        Some(Action::SourceMenuSelect)
    } else if plain(e, KeyCode::Up) {
        Some(Action::MoveUp)
    } else if plain(e, KeyCode::Down) {
        Some(Action::MoveDown)
    } else if plain(e, KeyCode::Left) || plain(e, KeyCode::Backspace) {
        Some(Action::SourceMenuBack)
    } else {
        None
    }
}

pub open spec fn resolve_add_location_spec(e: KeyEvent) -> Option<Action> {
    if is_ctrl_c(e) {
        Some(Action::Quit)
    } else if plain(e, KeyCode::Esc) {
        Some(Action::CancelAddLocation)
    } else if plain(e, KeyCode::Enter) {
        Some(Action::SubmitAddLocation)
    } else if plain(e, KeyCode::Up) {
        Some(Action::AddLocationFocusUp)
    } else if plain(e, KeyCode::Down) {
        Some(Action::AddLocationFocusDown)
    } else if plain(e, KeyCode::Left) {
        Some(Action::AddLocationFocusLeft)
    } else if plain(e, KeyCode::Right) {
        Some(Action::AddLocationFocusRight)
    } else {
        match text_edit_spec(e) {
            Some(edit) => Some(Action::EditAddLocation(edit)),
            None => None,
        }
    }
}

/// What a key press means in a mode.
pub open spec fn resolve_spec(b: KeyBindings, e: KeyEvent, mode: InputMode) -> Option<Action> {
    match mode {
        InputMode::Normal => resolve_normal_spec(b, e),
        InputMode::Command => resolve_command_spec(e),
        InputMode::Transfer => resolve_transfer_spec(e),
        InputMode::Preview => resolve_preview_spec(b, e),
        InputMode::SourceMenu => resolve_source_menu_spec(e),
        InputMode::AddLocation => resolve_add_location_spec(e),
    }
}

fn is_ctrl_c_exec(e: KeyEvent) -> (res: bool)
    ensures
        res == is_ctrl_c(e),
{
    e.code == KeyCode::Char('c') && e.modifiers.is_control_only()
}

fn plain_exec(e: KeyEvent, code: KeyCode) -> (res: bool)
    ensures
        res == plain(e, code),
{
    e.code == code && e.modifiers.is_empty()
}

fn text_edit(e: KeyEvent) -> (res: Option<CommandEditAction>)
    ensures
        res == text_edit_spec(e),
{
    if plain_exec(e, KeyCode::Backspace) {
        Some(CommandEditAction::Backspace)
    } else {
        match e.code {
            KeyCode::Char(ch) => if e.modifiers.no_control_alt() {
                Some(CommandEditAction::Insert(ch))
            } else {
                None
            },
            _ => None,
        }
    }
}

/// What each function key does in normal mode: F1 and F2 open the left
/// and right source menus, F3 previews, F4 adds a location, F5 copies, F6
/// moves, F7 creates a directory and F8 deletes.
pub open spec fn function_key_action(code: KeyCode) -> Option<Action> {
    match code {
        KeyCode::F(1) => Some(Action::OpenLeftSourceMenu),
        KeyCode::F(2) => Some(Action::OpenRightSourceMenu),
        KeyCode::F(3) => Some(Action::BeginPreview),
        KeyCode::F(4) => Some(Action::BeginAddLocation),
        KeyCode::F(5) => Some(Action::BeginCopy),
        KeyCode::F(6) => Some(Action::BeginMove),
        KeyCode::F(7) => Some(Action::BeginCreateDirectory),
        KeyCode::F(8) => Some(Action::BeginDelete),
        _ => None,
    }
}

/// In normal mode a function key pressed without modifiers does what
/// [`function_key_action`] lists, whatever the configured bindings.
pub proof fn law_function_keys(b: KeyBindings, e: KeyEvent)
    ensures
        e.modifiers.is_empty_spec() && function_key_action(e.code) is Some ==> resolve_spec(b, e, InputMode::Normal)
            == function_key_action(e.code),
{
}

impl KeyBindings {
    /// What a key press means in the given mode.
    pub fn resolve(&self, event: KeyEvent, mode: InputMode) -> (res: Option<Action>)
        ensures
            res == resolve_spec(*self, event, mode),
            mode == InputMode::Normal && event.modifiers.is_empty_spec() ==> res == function_key_action(event.code)
                || function_key_action(event.code) is None,
    {
        proof {
            law_function_keys(*self, event);
        }
        match mode {
            InputMode::Normal => self.resolve_normal_mode(event),
            InputMode::Command => resolve_command_mode(event),
            InputMode::Transfer => resolve_transfer_mode(event),
            InputMode::Preview => self.resolve_preview_mode(event),
            InputMode::SourceMenu => resolve_source_menu_mode(event),
            InputMode::AddLocation => resolve_add_location_mode(event),
        }
    }

    fn resolve_normal_mode(&self, e: KeyEvent) -> (res: Option<Action>)
        ensures
            res == resolve_normal_spec(*self, e),
    {
        if is_ctrl_c_exec(e) {
            Some(Action::Quit)
        } else if plain_exec(e, KeyCode::F(1)) {
            Some(Action::OpenLeftSourceMenu)
        } else if plain_exec(e, KeyCode::F(2)) {
            Some(Action::OpenRightSourceMenu)
        } else if self.enter_command_mode.matches(e) {
            Some(Action::EnterCommandMode)
        } else if self.quit.matches(e) {
            Some(Action::Quit)
        } else if self.switch_pane.matches(e) {
            Some(Action::SwitchPane)
        } else if self.move_up.matches(e) {
            Some(Action::MoveUp)
        } else if self.move_down.matches(e) {
            Some(Action::MoveDown)
        } else if self.open.matches(e) {
            Some(Action::OpenSelection)
        } else if plain_exec(e, KeyCode::F(3)) {
            Some(Action::BeginPreview)
        } else if plain_exec(e, KeyCode::F(4)) {
            Some(Action::BeginAddLocation)
        } else if self.parent.matches(e) {
            Some(Action::GoParent)
        } else if plain_exec(e, KeyCode::F(5)) {
            Some(Action::BeginCopy)
        } else if plain_exec(e, KeyCode::F(6)) {
            Some(Action::BeginMove)
        } else if plain_exec(e, KeyCode::F(7)) {
            Some(Action::BeginCreateDirectory)
        } else if plain_exec(e, KeyCode::F(8)) {
            Some(Action::BeginDelete)
        } else if plain_exec(e, KeyCode::Esc) {
            Some(Action::ClearStatus)
        } else {
            None
        }
    }

    fn resolve_preview_mode(&self, e: KeyEvent) -> (res: Option<Action>)
        ensures
            res == resolve_preview_spec(*self, e),
    {
        if is_ctrl_c_exec(e) {
            Some(Action::Quit)
        } else if self.quit.matches(e) {
            Some(Action::Quit)
        } else if plain_exec(e, KeyCode::Esc) || plain_exec(e, KeyCode::F(3)) {
            Some(Action::ClosePreview)
        } else if plain_exec(e, KeyCode::Up) {
            Some(Action::PreviewUp)
        } else if plain_exec(e, KeyCode::Down) {
            Some(Action::PreviewDown)
        } else {
            None
        }
    }
}

fn resolve_command_mode(e: KeyEvent) -> (res: Option<Action>)
    ensures
        res == resolve_command_spec(e),
{
    if is_ctrl_c_exec(e) {
        Some(Action::Quit)
    } else if plain_exec(e, KeyCode::Esc) {
        Some(Action::CancelCommand)
    } else if plain_exec(e, KeyCode::Enter) {
        Some(Action::SubmitCommand)
    } else if plain_exec(e, KeyCode::Left) {
        Some(Action::EditCommand(CommandEditAction::MoveCursorLeft))
    } else if plain_exec(e, KeyCode::Right) {
        Some(Action::EditCommand(CommandEditAction::MoveCursorRight))
    } else {
        match text_edit(e) {
            Some(edit) => Some(Action::EditCommand(edit)),
            None => None,
        }
    }
}

fn resolve_transfer_mode(e: KeyEvent) -> (res: Option<Action>)
    ensures
        res == resolve_transfer_spec(e),
{
    if is_ctrl_c_exec(e) {
        Some(Action::Quit)
    } else if plain_exec(e, KeyCode::Esc) {
        Some(Action::CancelTransfer)
    } else if plain_exec(e, KeyCode::Enter) {
        Some(Action::SubmitTransfer)
    } else if plain_exec(e, KeyCode::Up) {
        Some(Action::TransferFocusUp)
    } else if plain_exec(e, KeyCode::Down) {
        Some(Action::TransferFocusDown)
    } else if plain_exec(e, KeyCode::Left) {
        Some(Action::TransferFocusLeft)
    } else if plain_exec(e, KeyCode::Right) {
        Some(Action::TransferFocusRight)
    } else {
        match text_edit(e) {
            Some(edit) => Some(Action::EditTransfer(edit)),
            None => None,
        }
    }
}

fn resolve_source_menu_mode(e: KeyEvent) -> (res: Option<Action>)
    ensures
        res == resolve_source_menu_spec(e),
{
    if is_ctrl_c_exec(e) {
        Some(Action::Quit)
    } else if plain_exec(e, KeyCode::Esc) {
        Some(Action::CloseSourceMenu)
    } else if plain_exec(e, KeyCode::Enter) {
        Some(Action::SourceMenuSelect)
    } else if plain_exec(e, KeyCode::Up) {
        Some(Action::MoveUp)
    } else if plain_exec(e, KeyCode::Down) {
        Some(Action::MoveDown)
    } else if plain_exec(e, KeyCode::Left) || plain_exec(e, KeyCode::Backspace) {
        Some(Action::SourceMenuBack)
    } else {
        None
    }
}

fn resolve_add_location_mode(e: KeyEvent) -> (res: Option<Action>)
    ensures
        res == resolve_add_location_spec(e),
{
    if is_ctrl_c_exec(e) {
        Some(Action::Quit)
    } else if plain_exec(e, KeyCode::Esc) {
        Some(Action::CancelAddLocation)
    } else if plain_exec(e, KeyCode::Enter) {
        Some(Action::SubmitAddLocation)
    } else if plain_exec(e, KeyCode::Up) {
        Some(Action::AddLocationFocusUp)
    } else if plain_exec(e, KeyCode::Down) {
        Some(Action::AddLocationFocusDown)
    } else if plain_exec(e, KeyCode::Left) {
        Some(Action::AddLocationFocusLeft)
    } else if plain_exec(e, KeyCode::Right) {
        Some(Action::AddLocationFocusRight)
    } else {
        match text_edit(e) {
            Some(edit) => Some(Action::EditAddLocation(edit)),
            None => None,
        }
    }
}

} // verus!
