//! The application's decisions: what each action does to the state, and
//! which outside work (listing a directory, reading a file, connecting to
//! a source, copying, saving) it asks the caller to perform.
use vstd::prelude::*;

use crate::editing::{boundary_index, byte_len_ok, edit_text, edited, is_boundary};
use crate::history::{HistoryEntryView, HistoryStore, TomlHistoryStore, first_path_for, history_views};
use crate::locations::{history_entry_to_menu_entry, source_of_key};
use crate::profiles::SourceProfiles;
use crate::source::{
    EntryKind, FileEntry, LocationPathView, SourceCategory, SourceKind, SourceRefView, location_join_child,
    location_parent, location_text, source_category_title, stable_key_spec,
};
use crate::state::{
    PaneSourceState, clamped_scroll, clamped_selected, operation_label, operation_past_tense, pane_title,
    preview_lines, reselect,
};
use crate::source::{entry_views, from_input_spec, source_ref_kind};
use crate::history::record_spec;
use crate::locations::{success_target, success_target_spec};
use crate::text::trim_ws;
use crate::locations::{
    all_profile_ids, is_unique_id_for, normalize_optional_secret, optional_secret, unique_profile_id,
};
use crate::profiles::{FtpSourceProfile, LocalSourceProfile, ProfileMap, SmbSourceProfile, SshAuthMethod, SshSourceProfile};
use crate::secrets::{SecretStore, after_set};
use crate::targets::{
    UrlPartsView, chosen_secret, common_target_error, first_value_for, initial_path_spec, non_empty_pieces,
    parse_ftp_target, parse_smb_target, parse_ssh_target, path_segments_spec, port_or, smb_target_error,
    url_parts_of,
};
use crate::remote_path::rooted;
use crate::ui::{Rect, ScreenAreas, TransferDialogLayout, dialog_shape, slots_shape, dialog_hit_spec, dialog_hit_target, footer_hit, footer_hit_target, screen_areas};
use crate::locations::{footer_action_spec, footer_button_action};
use crate::config::string_views;
use crate::state::SourceMenuEntry;
use crate::input::{Action, CommandEditAction};
use crate::secrets::PlaintextSecretStore;
use crate::source::{LocationPath, SourceRef};
use crate::state::{
    ActivePane, AddLocationControl, AddLocationDialogState, AddLocationKind, AppState, InputMode,
    PaneState, PreviewState, SourceMenuLevel, SourceMenuState, StatusMessage, TransferControl,
    TransferDialogState, TransferOperation, default_status_spec, default_status_text,
    edits_destination_spec, kind_position, max_preview_scroll, menu_categories, other_pane,
    shows_source_spec, uses_secret_spec,
};

verus! {

/// The application: its state and the stores it keeps.
#[derive(Debug)]
pub struct App {
    pub state: AppState,
    pub secrets: PlaintextSecretStore,
    pub history: TomlHistoryStore,
}

// ---------------------------------------------------------------------------
// What the state must satisfy for every action to be defined
// ---------------------------------------------------------------------------

/// Every text cursor sits on a character boundary of its field, and each
/// field has room for one more character.
pub open spec fn cursors_ok(s: AppState) -> bool {
    &&& is_boundary(s.command.buffer@, s.command.cursor as int)
    &&& byte_len_ok(s.command.buffer@)
    &&& (s.transfer matches Some(d) ==> is_boundary(d.destination@, d.cursor as int) && byte_len_ok(
        d.destination@,
    ))
    &&& (s.add_location matches Some(d) ==> {
        &&& is_boundary(d.label@, d.label_cursor as int)
        &&& byte_len_ok(d.label@)
        &&& is_boundary(d.target@, d.target_cursor as int)
        &&& byte_len_ok(d.target@)
        &&& is_boundary(d.secret@, d.secret_cursor as int)
        &&& byte_len_ok(d.secret@)
    })
}

// ---------------------------------------------------------------------------
// Focus in the dialogs
// ---------------------------------------------------------------------------

pub open spec fn transfer_focus_up(op: TransferOperation, focus: TransferControl) -> TransferControl {
    match focus {
        TransferControl::SourceField => TransferControl::SourceField,
        TransferControl::DestinationField => if shows_source_spec(op) {
            TransferControl::SourceField
        } else {
            TransferControl::DestinationField
        },
        _ => TransferControl::DestinationField,
    }
}

pub open spec fn transfer_focus_down(focus: TransferControl) -> TransferControl {
    match focus {
        TransferControl::SourceField => TransferControl::DestinationField,
        TransferControl::DestinationField => TransferControl::ConfirmButton,
        TransferControl::ConfirmButton => TransferControl::ConfirmButton,
        TransferControl::CancelButton => TransferControl::CancelButton,
    }
}

/// The dialog after moving the focus (or the cursor) left or right.
pub open spec fn transfer_sideways(d: TransferDialogState, right: bool) -> TransferDialogState {
    if d.focus == TransferControl::DestinationField && edits_destination_spec(d.operation) {
        let edit = if right { CommandEditAction::MoveCursorRight } else { CommandEditAction::MoveCursorLeft };
        TransferDialogState {
            cursor: edited(d.destination@, d.cursor as int, edit).1 as usize,
            hovered: Some(d.focus),
            ..d
        }
    } else if !right && d.focus == TransferControl::CancelButton {
        TransferDialogState { focus: TransferControl::ConfirmButton, hovered: Some(TransferControl::ConfirmButton), ..d }
    } else if right && d.focus == TransferControl::ConfirmButton {
        TransferDialogState { focus: TransferControl::CancelButton, hovered: Some(TransferControl::CancelButton), ..d }
    } else {
        TransferDialogState { hovered: Some(d.focus), ..d }
    }
}

pub open spec fn add_location_focus_up(kind: AddLocationKind, focus: AddLocationControl) -> AddLocationControl {
    match focus {
        AddLocationControl::KindField => AddLocationControl::KindField,
        AddLocationControl::LabelField => AddLocationControl::KindField,
        AddLocationControl::TargetField => AddLocationControl::LabelField,
        AddLocationControl::SecretField => AddLocationControl::TargetField,
        _ => if uses_secret_spec(kind) {
            AddLocationControl::SecretField
        } else {
            AddLocationControl::TargetField
        },
    }
}

pub open spec fn add_location_focus_down(kind: AddLocationKind, focus: AddLocationControl) -> AddLocationControl {
    match focus {
        AddLocationControl::KindField => AddLocationControl::LabelField,
        AddLocationControl::LabelField => AddLocationControl::TargetField,
        AddLocationControl::TargetField => if uses_secret_spec(kind) {
            AddLocationControl::SecretField
        } else {
            AddLocationControl::ConfirmButton
        },
        AddLocationControl::SecretField => AddLocationControl::ConfirmButton,
        AddLocationControl::ConfirmButton => AddLocationControl::ConfirmButton,
        AddLocationControl::CancelButton => AddLocationControl::CancelButton,
    }
}

/// The kind one step back (`left`) or forward in the kind field's cycle.
pub open spec fn stepped_kind(kind: AddLocationKind, right: bool) -> AddLocationKind {
    let p = if right { (kind_position(kind) + 1) % 4 } else { (kind_position(kind) + 3) % 4 };
    if p == 0 {
        AddLocationKind::Local
    } else if p == 1 {
        AddLocationKind::Ftp
    } else if p == 2 {
        AddLocationKind::Smb
    } else {
        AddLocationKind::Ssh
    }
}

/// The dialog after moving the focus, the kind or a cursor sideways.
pub open spec fn add_location_sideways(d: AddLocationDialogState, right: bool) -> AddLocationDialogState {
    let edit = if right { CommandEditAction::MoveCursorRight } else { CommandEditAction::MoveCursorLeft };
    match d.focus {
        AddLocationControl::KindField => AddLocationDialogState {
            kind: stepped_kind(d.kind, right),
            hovered: Some(d.focus),
            ..d
        },
        AddLocationControl::LabelField => AddLocationDialogState {
            label_cursor: edited(d.label@, d.label_cursor as int, edit).1 as usize,
            hovered: Some(d.focus),
            ..d
        },
        AddLocationControl::TargetField => AddLocationDialogState {
            target_cursor: edited(d.target@, d.target_cursor as int, edit).1 as usize,
            hovered: Some(d.focus),
            ..d
        },
        AddLocationControl::SecretField => if uses_secret_spec(d.kind) {
            AddLocationDialogState {
                secret_cursor: edited(d.secret@, d.secret_cursor as int, edit).1 as usize,
                hovered: Some(d.focus),
                ..d
            }
        } else {
            AddLocationDialogState { hovered: Some(d.focus), ..d }
        },
        AddLocationControl::CancelButton => if !right {
            AddLocationDialogState {
                focus: AddLocationControl::ConfirmButton,
                hovered: Some(AddLocationControl::ConfirmButton),
                ..d
            }
        } else {
            AddLocationDialogState { hovered: Some(d.focus), ..d }
        },
        AddLocationControl::ConfirmButton => if right {
            AddLocationDialogState {
                focus: AddLocationControl::CancelButton,
                hovered: Some(AddLocationControl::CancelButton),
                ..d
            }
        } else {
            AddLocationDialogState { hovered: Some(d.focus), ..d }
        },
    }
}

// ---------------------------------------------------------------------------
// The source menu
// ---------------------------------------------------------------------------

pub open spec fn menu_up(m: SourceMenuState) -> SourceMenuState {
    match m.level {
        SourceMenuLevel::Categories => SourceMenuState {
            category_selected: if m.category_selected > 0 { (m.category_selected - 1) as usize } else { 0 },
            ..m
        },
        SourceMenuLevel::Items(_) => SourceMenuState {
            item_selected: if m.item_selected > 0 { (m.item_selected - 1) as usize } else { 0 },
            ..m
        },
    }
}

pub open spec fn menu_down(m: SourceMenuState) -> SourceMenuState {
    match m.level {
        SourceMenuLevel::Categories => SourceMenuState {
            category_selected: if m.category_selected + 1 < 4 { (m.category_selected + 1) as usize } else { 4 },
            ..m
        },
        SourceMenuLevel::Items(_) => if m.items@.len() == 0 {
            m
        } else {
            SourceMenuState {
                item_selected: if m.item_selected + 1 < m.items@.len() - 1 {
                    (m.item_selected + 1) as usize
                } else {
                    (m.items@.len() - 1) as usize
                },
                ..m
            }
        },
    }
}

/// `t` is `s` with the state's status replaced by a message saying `text`.
pub open spec fn status_set(s: App, t: App, text: Seq<char>) -> bool {
    &&& t == (App { state: AppState { status: t.state.status, ..s.state }, ..s })
    &&& t.state.status.text@ == text
}

/// The pane after moving the selection up.
pub open spec fn pane_up(p: PaneState) -> PaneState {
    PaneState { selected: if p.selected > 0 { (p.selected - 1) as usize } else { 0 }, ..p }
}

/// The pane after moving the selection down.
pub open spec fn pane_down(p: PaneState) -> PaneState {
    PaneState { selected: if p.selected + 1 < p.entries@.len() { (p.selected + 1) as usize } else { p.selected }, ..p }
}

/// The state with the pane `which` replaced.
pub open spec fn with_pane(s: AppState, which: ActivePane, p: PaneState) -> AppState {
    match which {
        ActivePane::Left => AppState { left: p, ..s },
        ActivePane::Right => AppState { right: p, ..s },
    }
}

pub open spec fn pane_name(pane: ActivePane) -> Seq<char> {
    match pane {
        ActivePane::Left => "left"@,
        ActivePane::Right => "right"@,
    }
}

/// Moving up: in the source menu, in the add-location dialog, or in the
/// active pane.
pub open spec fn move_up_outcome(s: App) -> App {
    match s.state.mode {
        InputMode::SourceMenu => match s.state.source_menu {
            Some(m) => App { state: AppState { source_menu: Some(menu_up(m)), ..s.state }, ..s },
            None => s,
        },
        InputMode::AddLocation => match s.state.add_location {
            Some(d) => {
                let f = add_location_focus_up(d.kind, d.focus);
                App { state: AppState { add_location: Some(AddLocationDialogState { focus: f, hovered: Some(f), ..d }), ..s.state }, ..s }
            },
            None => s,
        },
        _ => App { state: with_pane(s.state, s.state.active_pane, pane_up(s.state.pane_spec(s.state.active_pane))), ..s },
    }
}

/// Moving down: in the source menu, in the add-location dialog, or in the
/// active pane.
pub open spec fn move_down_outcome(s: App) -> App {
    match s.state.mode {
        InputMode::SourceMenu => match s.state.source_menu {
            Some(m) => App { state: AppState { source_menu: Some(menu_down(m)), ..s.state }, ..s },
            None => s,
        },
        InputMode::AddLocation => match s.state.add_location {
            Some(d) => {
                let f = add_location_focus_down(d.kind, d.focus);
                App { state: AppState { add_location: Some(AddLocationDialogState { focus: f, hovered: Some(f), ..d }), ..s.state }, ..s }
            },
            None => s,
        },
        _ => App { state: with_pane(s.state, s.state.active_pane, pane_down(s.state.pane_spec(s.state.active_pane))), ..s },
    }
}

/// The state allows every action: the cursors are on boundaries, and the
/// counters that an action increments are below their limit.
pub open spec fn can_handle(s: AppState) -> bool {
    &&& cursors_ok(s)
    &&& s.left.selected < usize::MAX
    &&& s.right.selected < usize::MAX
    &&& (s.preview matches Some(p) ==> p.scroll < usize::MAX)
    &&& (s.source_menu matches Some(m) ==> m.category_selected < 5 && m.item_selected < usize::MAX)
}

// ---------------------------------------------------------------------------
// Outside work
// ---------------------------------------------------------------------------

/// Work an action asks the caller to do outside the state; the caller
/// reports back through the method named on each variant.
#[derive(Debug)]
pub enum Effect {
    /// Nothing to do.
    Nothing,
    /// Read the file at `path` through the active pane's source, then call
    /// [`App::show_preview`].
    ReadPreview { path: LocationPath },
    /// Move `pane` to `path` and list it, then call
    /// [`App::change_directory`].
    ChangeDirectory { pane: ActivePane, path: LocationPath },
    /// Connect `pane` to `source`, open [`App::switch_target_path`] of
    /// `path_hint`, list it, then call [`App::replace_pane_source`].
    SwitchSource { pane: ActivePane, source: SourceRef, path_hint: LocationPath },
    /// Run the text typed on the command line (see `commands::execute`).
    RunCommand { text: String },
    /// Copy or move `source` (in the active pane) to `destination` (in the
    /// other pane, or into it when it names a directory: see
    /// [`resolve_transfer_destination`]), within one source when
    /// `same_source`, then call [`App::finish_transfer`].
    CopyOrMove { operation: TransferOperation, source: LocationPath, destination: LocationPath, same_source: bool },
    /// Create the directory `destination` in the active pane's source, then
    /// call [`App::finish_transfer`].
    CreateDirectory { destination: LocationPath },
    /// Delete `target` in the active pane's source, then call
    /// [`App::finish_transfer`].
    Delete { target: LocationPath },
    /// What the add-location dialog asks for.
    Location(LocationEffect),
}

// ---------------------------------------------------------------------------
// Saving a new location
// ---------------------------------------------------------------------------

/// Effects of the add-location dialog (see [`App::submit_add_location`]).
#[derive(Debug)]
pub enum LocationEffect {
    /// Nothing to do.
    Nothing,
    /// Check that the directory `target` names (see
    /// [`local_location_candidate`]) exists, then call
    /// [`App::save_local_location`].
    SaveLocal { id: String, label: String, target: String },
    /// Write the configuration and secrets files.
    Persist,
}

/// `after` is `before` with `id` added, every other id kept as it was.
pub open spec fn map_gains<V>(before: ProfileMap<V>, after: ProfileMap<V>, id: Seq<char>) -> bool {
    &&& after.has(id)
    &&& forall|other: Seq<char>| other != id ==> (#[trigger] after.has(other) == before.has(other))
    &&& forall|other: Seq<char>| other != id && before.has(other) ==> #[trigger] after.lookup(other) == before.lookup(other)
}

/// The dialog closed after saving a location of kind `kind_name`.
pub open spec fn location_saved(s: App, t: App, kind_name: Seq<char>, label: Seq<char>) -> bool {
    &&& t.state == (AppState {
        status: t.state.status,
        add_location: None,
        mode: InputMode::Normal,
        config: t.state.config,
        ..s.state
    })
    &&& t.state.status.text@ == "saved "@ + kind_name + " location: "@ + label
    &&& t.state.config.key_bindings == s.state.config.key_bindings
    &&& t.state.config.startup_warnings == s.state.config.startup_warnings
    &&& t.history == s.history
}

/// The directory a new local location names: the target itself when
/// absolute, else the target inside the active pane's local directory; none
/// when the active pane is remote (the caller then resolves it against the
/// process's working directory).
pub open spec fn local_candidate_spec(cwd: LocationPathView, raw: Seq<char>) -> Option<Seq<char>> {
    if crate::source::local_is_absolute_of(raw) {
        Some(raw)
    } else {
        match cwd {
            LocationPathView::Local(c) => Some(crate::source::local_join_of(c, raw)),
            LocationPathView::Remote(_) => None,
        }
    }
}

pub fn local_location_candidate(cwd: &LocationPath, raw: &str) -> (res: Option<String>)
    ensures
        crate::text::opt_view(res) == local_candidate_spec(cwd@, raw@),
{
    if crate::source::local_is_absolute(raw) {
        Some(crate::text::owned(raw))
    } else {
        match cwd {
            LocationPath::Local(c) => Some(crate::source::local_join(c.as_str(), raw)),
            LocationPath::Remote(_) => None,
        }
    }
}

/// Where a copy or move lands: inside `destination` under the source's
/// name when `destination` is a directory, else at `destination`.
pub open spec fn transfer_target_spec(destination: LocationPathView, source: LocationPathView, is_directory: bool) -> LocationPathView {
    if is_directory {
        location_join_child(destination, match crate::source::location_file_name(source) {
            Some(n) => n,
            None => Seq::empty(),
        })
    } else {
        destination
    }
}

/// A copy or move lands at the destination itself unless the destination
/// is a directory; into a remote directory it lands under the source's
/// name, directly inside that directory.
pub proof fn law_transfer_target(
    destination: LocationPathView,
    source: LocationPathView,
    is_directory: bool,
    dir: Seq<char>,
    name: Seq<char>,
)
    ensures
        !is_directory ==> transfer_target_spec(destination, source, is_directory) == destination,
        is_directory && destination == LocationPathView::Remote(dir) && crate::source::location_file_name(source)
            == Some(name) && crate::remote_path::plain_component(name) ==> {
            let t = transfer_target_spec(destination, source, is_directory);
            &&& crate::source::location_file_name(t) == Some(name)
            &&& location_parent(t) == Some(LocationPathView::Remote(crate::remote_path::normalize_remote_spec(dir)))
        },
{
    if is_directory && destination == LocationPathView::Remote(dir) && crate::source::location_file_name(source)
        == Some(name) && crate::remote_path::plain_component(name) {
        crate::remote_path::law_file_name_of_join(dir, name);
        crate::remote_path::law_parent_of_join(dir, name);
    }
}

pub fn resolve_transfer_destination(destination: LocationPath, source: &LocationPath, is_directory: bool) -> (res: LocationPath)
    ensures
        res@ == transfer_target_spec(destination@, source@, is_directory),
        !is_directory ==> res == destination,
{
    proof {
        law_transfer_target(destination@, source@, is_directory, Seq::empty(), Seq::empty());
    }
    if is_directory {
        let name = match source.file_name() {
            Some(n) => n,
            None => String::new(),
        };
        destination.join_child(name.as_str())
    } else {
        destination
    }
}

/// The pane after taking a new listing of `cwd` (see `PaneState::refresh`).
pub open spec fn listed(p: PaneState, cwd: LocationPath, entries: Vec<FileEntry>) -> PaneState {
    let previous = if p.selected < p.entries@.len() {
        Some(p.entries@[p.selected as int].name@)
    } else {
        None
    };
    let picked = reselect(previous, p.selected as int, entry_views(entries@));
    PaneState {
        cwd,
        entries,
        selected: clamped_selected(picked, entries@.len()) as usize,
        scroll: clamped_scroll(p.scroll as int, picked, entries@.len()) as usize,
        last_error: None,
        ..p
    }
}

/// The history after recording that pane `p` shows its directory.
pub open spec fn history_recorded(before: Seq<HistoryEntryView>, after: Seq<HistoryEntryView>, p: PaneState) -> bool {
    exists|now: u64| after == record_spec(before, HistoryEntryView {
        source_kind: source_ref_kind(p.source.source_ref@),
        source_key: stable_key_spec(p.source.source_ref@),
        label: p.source.label@,
        last_path: p.cwd@,
        last_used_at: now,
    })
}

// ---------------------------------------------------------------------------
// Source menu items
// ---------------------------------------------------------------------------

/// The mathematical form of a menu entry: source, label, directory.
pub open spec fn menu_entry_view(m: SourceMenuEntry) -> (SourceRefView, Seq<char>, LocationPathView) {
    (m.source_ref@, m.label@, m.path_hint@)
}

pub open spec fn menu_views(v: Seq<SourceMenuEntry>) -> Seq<(SourceRefView, Seq<char>, LocationPathView)> {
    v.map_values(|m: SourceMenuEntry| menu_entry_view(m))
}

/// The history offered in the menu: each remembered source that still
/// exists, most recent first.
pub open spec fn history_menu(sources: SourceProfiles, h: Seq<HistoryEntryView>) -> Seq<(SourceRefView, Seq<char>, LocationPathView)>
    decreases h.len(),
{
    if h.len() == 0 {
        Seq::empty()
    } else {
        let rest = history_menu(sources, h.drop_last());
        let e = h.last();
        match source_of_key(sources, e.source_key, e.label) {
            Some(src) => rest.push((src, e.label, e.last_path)),
            None => rest,
        }
    }
}

/// The directory a saved remote profile opens at from the menu: the last
/// one shown for it, else its initial path.
pub open spec fn remote_hint(h: Seq<HistoryEntryView>, source: SourceRefView, initial: Seq<char>) -> LocationPathView {
    match first_path_for(h, stable_key_spec(source)) {
        Some(p) => p,
        None => LocationPathView::Remote(initial),
    }
}

/// Every saved remote profile (FTP, SMB or SSH) is offered in its menu
/// category, in order, opening at the last directory the history
/// remembers for that source, else at the profile's initial path.
pub proof fn law_remote_menu_hints(sources: SourceProfiles, h: Seq<HistoryEntryView>, i: int)
    ensures
        0 <= i < sources.ftp.ids().len() ==> ({
            let items = menu_items_spec(sources, h, SourceCategory::Ftp);
            &&& items.len() == sources.ftp.ids().len()
            &&& items[i].0 == SourceRefView::SavedFtp { id: sources.ftp.ids()[i] }
            &&& items[i].2 == match first_path_for(h, "ftp:"@ + sources.ftp.ids()[i]) {
                Some(p) => p,
                None => LocationPathView::Remote(sources.ftp.profiles()[i].initial_path@),
            }
        }),
        0 <= i < sources.smb.ids().len() ==> ({
            let items = menu_items_spec(sources, h, SourceCategory::Smb);
            &&& items.len() == sources.smb.ids().len()
            &&& items[i].0 == SourceRefView::SavedSmb { id: sources.smb.ids()[i] }
            &&& items[i].2 == match first_path_for(h, "smb:"@ + sources.smb.ids()[i]) {
                Some(p) => p,
                None => LocationPathView::Remote(sources.smb.profiles()[i].initial_path@),
            }
        }),
        0 <= i < sources.ssh.ids().len() ==> ({
            let items = menu_items_spec(sources, h, SourceCategory::Ssh);
            &&& items.len() == sources.ssh.ids().len()
            &&& items[i].0 == SourceRefView::SavedSsh { id: sources.ssh.ids()[i] }
            &&& items[i].2 == match first_path_for(h, "ssh:"@ + sources.ssh.ids()[i]) {
                Some(p) => p,
                None => LocationPathView::Remote(sources.ssh.profiles()[i].initial_path@),
            }
        }),
{
}

/// The entries of a menu category, in the order shown.
pub open spec fn menu_items_spec(sources: SourceProfiles, h: Seq<HistoryEntryView>, category: SourceCategory) -> Seq<(SourceRefView, Seq<char>, LocationPathView)> {
    match category {
        SourceCategory::History => history_menu(sources, h),
        SourceCategory::Local => Seq::new(sources.local.ids().len(), |i: int| (
            SourceRefView::SavedLocal { id: sources.local.ids()[i] },
            sources.local.profiles()[i].label@,
            LocationPathView::Local(sources.local.profiles()[i].path@),
        )),
        SourceCategory::Ftp => Seq::new(sources.ftp.ids().len(), |i: int| (
            SourceRefView::SavedFtp { id: sources.ftp.ids()[i] },
            sources.ftp.profiles()[i].label@,
            remote_hint(h, SourceRefView::SavedFtp { id: sources.ftp.ids()[i] }, sources.ftp.profiles()[i].initial_path@),
        )),
        SourceCategory::Smb => Seq::new(sources.smb.ids().len(), |i: int| (
            SourceRefView::SavedSmb { id: sources.smb.ids()[i] },
            sources.smb.profiles()[i].label@,
            remote_hint(h, SourceRefView::SavedSmb { id: sources.smb.ids()[i] }, sources.smb.profiles()[i].initial_path@),
        )),
        SourceCategory::Ssh => Seq::new(sources.ssh.ids().len(), |i: int| (
            SourceRefView::SavedSsh { id: sources.ssh.ids()[i] },
            sources.ssh.profiles()[i].label@,
            remote_hint(h, SourceRefView::SavedSsh { id: sources.ssh.ids()[i] }, sources.ssh.profiles()[i].initial_path@),
        )),
    }
}

fn history_items(config: &crate::config::Config, history: &TomlHistoryStore) -> (res: Vec<SourceMenuEntry>)
    ensures
        menu_views(res@) == history_menu(config.sources, history.history()),
{
    let entries = history.entries();
    let ghost h = history.history();
    let mut res: Vec<SourceMenuEntry> = Vec::new();
    let mut i: usize = 0;
    proof {
        assert(h.take(0) =~= Seq::<HistoryEntryView>::empty());
        assert(menu_views(res@) =~= Seq::<(SourceRefView, Seq<char>, LocationPathView)>::empty());
    }
    while i < entries.len()
        invariant
            i <= entries@.len(),
            history_views(entries@) == h,
            menu_views(res@) == history_menu(config.sources, h.take(i as int)),
        decreases entries.len() - i,
    {
        proof {
            let t = h.take(i + 1);
            assert(t.drop_last() =~= h.take(i as int));
            assert(t.last() == entries@[i as int]@);
        }
        let item = history_entry_to_menu_entry(config, &entries[i]);
        match item {
            Some(m) => {
                let ghost before = menu_views(res@);
                res.push(m);
                proof {
                    assert(menu_views(res@) =~= before.push(menu_entry_view(m)));
                }
            },
            None => {},
        }
        i = i + 1;
    }
    proof {
        assert(h.take(entries.len() as int) =~= h);
    }
    res
}

/// What submitting a filled-in add-location dialog `d` does (see
/// [`App::submit_add_location`]).
pub open spec fn add_location_outcome(s: App, t: App, d: AddLocationDialogState, res: Result<LocationEffect, String>) -> bool {
    let label = trim_ws(d.label@);
    let target = trim_ws(d.target@);
    let typed = optional_secret(d.secret@);
    let u = url_parts_of(target);
    let src = s.state.config.sources;
    let dst = t.state.config.sources;
    match d.kind {
        AddLocationKind::Local => (res matches Ok(LocationEffect::SaveLocal { id, label: l, target: g })
            && is_unique_id_for(label, src, id@) && l@ == label && g@ == target) && t == s,
        AddLocationKind::Ftp => match common_target_error(target, u, "ftp"@) {
            Some(e) => (res matches Err(m) && m@ == e) && t == s,
            None => if chosen_secret(typed, u.unwrap()) is None {
                status_set(s, t, "ftp locations require a password"@) && res matches Ok(LocationEffect::Nothing)
            } else {
                exists|id: Seq<char>| {
                    &&& is_unique_id_for(label, src, id)
                    &&& map_gains(src.ftp, dst.ftp, id)
                    &&& ftp_profile_from(dst.ftp.lookup(id), label, u.unwrap())
                    &&& dst.local == src.local && dst.smb == src.smb && dst.ssh == src.ssh
                    &&& t.secrets.ftp_passwords() == after_set(s.secrets.ftp_passwords(), id, chosen_secret(typed, u.unwrap()))
                    &&& t.secrets.smb_passwords() == s.secrets.smb_passwords()
                    &&& t.secrets.ssh_passwords() == s.secrets.ssh_passwords()
                    &&& t.secrets.ssh_key_passphrases() == s.secrets.ssh_key_passphrases()
                } && location_saved(s, t, "ftp"@, label) && res matches Ok(LocationEffect::Persist)
            },
        },
        AddLocationKind::Smb => match common_target_error(target, u, "smb"@) {
            Some(e) => (res matches Err(m) && m@ == e) && t == s,
            None => match smb_target_error(target, u.unwrap()) {
                Some(e) => (res matches Err(m) && m@ == e) && t == s,
                None => if chosen_secret(typed, u.unwrap()) is None {
                    status_set(s, t, "smb locations require a password"@) && res matches Ok(LocationEffect::Nothing)
                } else {
                    exists|id: Seq<char>| {
                        &&& is_unique_id_for(label, src, id)
                        &&& map_gains(src.smb, dst.smb, id)
                        &&& smb_profile_from(dst.smb.lookup(id), label, u.unwrap())
                        &&& dst.local == src.local && dst.ftp == src.ftp && dst.ssh == src.ssh
                        &&& t.secrets.smb_passwords() == after_set(s.secrets.smb_passwords(), id, chosen_secret(typed, u.unwrap()))
                        &&& t.secrets.ftp_passwords() == s.secrets.ftp_passwords()
                        &&& t.secrets.ssh_passwords() == s.secrets.ssh_passwords()
                        &&& t.secrets.ssh_key_passphrases() == s.secrets.ssh_key_passphrases()
                    } && location_saved(s, t, "smb"@, label) && res matches Ok(LocationEffect::Persist)
                },
            },
        },
        AddLocationKind::Ssh => match common_target_error(target, u, "ssh"@) {
            Some(e) => (res matches Err(m) && m@ == e) && t == s,
            None => if chosen_secret(typed, u.unwrap()) is None {
                status_set(s, t, "ssh locations require a password"@) && res matches Ok(LocationEffect::Nothing)
            } else {
                exists|id: Seq<char>| {
                    &&& is_unique_id_for(label, src, id)
                    &&& map_gains(src.ssh, dst.ssh, id)
                    &&& ssh_profile_from(dst.ssh.lookup(id), label, u.unwrap())
                    &&& dst.local == src.local && dst.ftp == src.ftp && dst.smb == src.smb
                    &&& t.secrets.ssh_passwords() == after_set(s.secrets.ssh_passwords(), id, chosen_secret(typed, u.unwrap()))
                    &&& t.secrets.ssh_key_passphrases() == after_set(s.secrets.ssh_key_passphrases(), id, None)
                    &&& t.secrets.ftp_passwords() == s.secrets.ftp_passwords()
                    &&& t.secrets.smb_passwords() == s.secrets.smb_passwords()
                } && location_saved(s, t, "ssh"@, label) && res matches Ok(LocationEffect::Persist)
            },
        },
    }
}

pub open spec fn ftp_profile_from(p: FtpSourceProfile, label: Seq<char>, u: UrlPartsView) -> bool {
    &&& p.label@ == label
    &&& Some(p.host@) == u.host
    &&& p.port == port_or(u.port, 21)
    &&& p.username@ == u.username
    &&& p.initial_path@ == initial_path_spec(u.path)
}

pub open spec fn smb_profile_from(p: SmbSourceProfile, label: Seq<char>, u: UrlPartsView) -> bool {
    let segs = path_segments_spec(u.path).unwrap();
    &&& p.label@ == label
    &&& Some(p.server@) == u.host
    &&& p.share@ == seq!['/'] + segs[0]
    &&& p.username@ == u.username
    &&& crate::text::opt_view(p.workgroup) == first_value_for(u.query, "workgroup"@)
    &&& p.initial_path@ == rooted(non_empty_pieces(segs.skip(1)))
}

pub open spec fn ssh_profile_from(p: SshSourceProfile, label: Seq<char>, u: UrlPartsView) -> bool {
    &&& p.label@ == label
    &&& Some(p.host@) == u.host
    &&& p.port == port_or(u.port, 22)
    &&& p.username@ == u.username
    &&& p.initial_path@ == initial_path_spec(u.path)
    &&& p.auth == SshAuthMethod::Password
    &&& p.key_path is None
}

// ---------------------------------------------------------------------------
// What each operation does
// ---------------------------------------------------------------------------

pub open spec fn move_up_done(s: App, t: App) -> bool {
    &&& (t == move_up_outcome(s))
}

pub open spec fn move_down_done(s: App, t: App) -> bool {
    &&& (t == move_down_outcome(s))
}

pub open spec fn switch_pane_done(s: App, t: App) -> bool {
    &&& (status_set(
                App { state: AppState { active_pane: other_pane(s.state.active_pane), ..s.state }, ..s },
                t,
                "active pane: "@ + pane_name(other_pane(s.state.active_pane)),
            ))
}

pub open spec fn open_source_menu_done(s: App, t: App, pane: ActivePane) -> bool {
    &&& (t.state.source_menu matches Some(m) && m.target_pane == pane
                && m.level == SourceMenuLevel::Categories && m.category_selected == 0
                && m.item_selected == 0 && m.items@.len() == 0)
    &&& (status_set(
                App { state: AppState { active_pane: pane, source_menu: t.state.source_menu, mode: InputMode::SourceMenu, ..s.state }, ..s },
                t,
                "source selection: choose a category"@,
            ))
}

pub open spec fn source_menu_back_done(s: App, t: App) -> bool {
    &&& (match s.state.source_menu {
                None => t == s,
                Some(m) => match m.level {
                    SourceMenuLevel::Categories => t == (App {
                        state: AppState { source_menu: None, mode: InputMode::Normal, ..s.state },
                        ..s
                    }),
                    SourceMenuLevel::Items(_) => {
                        &&& t.state.source_menu matches Some(n) && n.items@.len() == 0 && n == (SourceMenuState {
                            level: SourceMenuLevel::Categories,
                            item_selected: 0,
                            items: n.items,
                            ..m
                        })
                        &&& status_set(
                            App { state: AppState { source_menu: t.state.source_menu, ..s.state }, ..s },
                            t,
                            "source selection: choose a category"@,
                        )
                    },
                },
            })
}

pub open spec fn select_source_menu_item_done(s: App, t: App, res: Effect) -> bool {
    &&& (match s.state.source_menu {
                None => t == s && res is Nothing,
                Some(m) => match m.level {
                    SourceMenuLevel::Categories => {
                        let category = menu_categories()[m.category_selected as int];
                        &&& res is Nothing
                        &&& t.state.source_menu matches Some(n) && n == (SourceMenuState {
                            level: SourceMenuLevel::Items(category),
                            item_selected: 0,
                            items: n.items,
                            ..m
                        }) && menu_views(n.items@) == menu_items_spec(
                            s.state.config.sources,
                            s.history.history(),
                            category,
                        )
                        &&& status_set(
                            App { state: AppState { source_menu: t.state.source_menu, ..s.state }, ..s },
                            t,
                            "source selection: "@ + source_category_title(category),
                        )
                    },
                    SourceMenuLevel::Items(_) => {
                        &&& t == s
                        &&& if m.item_selected < m.items@.len() {
                            let e = m.items@[m.item_selected as int];
                            res matches Effect::SwitchSource { pane, source, path_hint } && pane == m.target_pane
                                && source@ == e.source_ref@ && path_hint@ == e.path_hint@
                        } else {
                            res is Nothing
                        }
                    },
                },
            })
}

pub open spec fn close_source_menu_done(s: App, t: App) -> bool {
    &&& (status_set(
                App { state: AppState { source_menu: None, mode: InputMode::Normal, ..s.state }, ..s },
                t,
                "source selection cancelled"@,
            ))
}

pub open spec fn begin_preview_done(s: App, t: App, res: Effect) -> bool {
    &&& (match s.selected_spec() {
                None => status_set(s, t, "nothing selected"@) && res is Nothing,
                Some(entry) => if entry.kind != EntryKind::File {
                    status_set(s, t, entry.name@ + " is not a file"@) && res is Nothing
                } else {
                    &&& t == s
                    &&& res matches Effect::ReadPreview { path } && path@ == entry.path@
                },
            })
}

pub open spec fn open_selection_done(s: App, t: App, res: Effect) -> bool {
    &&& (match s.selected_spec() {
                None => status_set(s, t, "nothing to open"@) && res is Nothing,
                Some(entry) => if entry.kind == EntryKind::Directory {
                    &&& t == s
                    &&& res matches Effect::ChangeDirectory { pane, path } && pane == s.state.active_pane
                        && path@ == entry.path@
                } else {
                    status_set(s, t, entry.name@ + " is not a directory"@) && res is Nothing
                },
            })
}

pub open spec fn go_parent_done(s: App, t: App, res: Effect) -> bool {
    &&& (({
                let cwd = s.state.pane_spec(s.state.active_pane).cwd@;
                match location_parent(cwd) {
                    Some(p) => if p == cwd {
                        status_set(s, t, "already at filesystem root"@) && res is Nothing
                    } else {
                        &&& t == s
                        &&& res matches Effect::ChangeDirectory { pane, path } && pane == s.state.active_pane
                            && path@ == p
                    },
                    None => status_set(s, t, "already at filesystem root"@) && res is Nothing,
                }
            }))
}

pub open spec fn begin_transfer_done(s: App, t: App, operation: TransferOperation) -> bool {
    &&& (match s.selected_spec() {
                None => status_set(s, t, "nothing selected"@),
                Some(entry) => if (operation == TransferOperation::Copy || operation == TransferOperation::Move)
                    && entry.kind != EntryKind::File {
                    status_set(s, t, operation_label(operation) + " supports files only"@)
                } else {
                    let active = s.state.pane_spec(s.state.active_pane);
                    let other = s.state.pane_spec(other_pane(s.state.active_pane));
                    &&& t == (App {
                        state: AppState { transfer: t.state.transfer, mode: InputMode::Transfer, ..s.state },
                        ..s
                    })
                    &&& t.state.transfer matches Some(d) && d.operation == operation && d.source@ == entry.path@
                        && d.source_label == active.source.label && d.source_kind == active.source.kind
                        && d.destination@ == location_text(other.cwd@)
                        && d.cursor == crate::text::byte_len(d.destination@) as usize
                        && d.focus == crate::state::initial_transfer_focus(operation) && d.hovered is None
                },
            })
}

pub open spec fn begin_create_directory_done(s: App, t: App) -> bool {
    &&& (({
                let active = s.state.pane_spec(s.state.active_pane);
                &&& t == (App {
                    state: AppState { transfer: t.state.transfer, mode: InputMode::Transfer, ..s.state },
                    ..s
                })
                &&& t.state.transfer matches Some(d) && d.operation == TransferOperation::CreateDirectory
                    && d.source@ == active.cwd@ && d.source_label == active.source.label
                    && d.source_kind == active.source.kind
                    && d.destination@ == location_text(location_join_child(active.cwd@, "new-dir"@))
                    && d.cursor == crate::text::byte_len(d.destination@) as usize
                    && d.focus == TransferControl::DestinationField && d.hovered is None
            }))
}

pub open spec fn begin_delete_done(s: App, t: App) -> bool {
    &&& (match s.selected_spec() {
                None => status_set(s, t, "nothing selected"@),
                Some(entry) => {
                    let active = s.state.pane_spec(s.state.active_pane);
                    &&& t == (App {
                        state: AppState { transfer: t.state.transfer, mode: InputMode::Transfer, ..s.state },
                        ..s
                    })
                    &&& t.state.transfer matches Some(d) && d.operation == TransferOperation::Delete
                        && d.source@ == entry.path@ && d.source_label == active.source.label
                        && d.source_kind == active.source.kind && d.destination@.len() == 0 && d.cursor == 0
                        && d.focus == TransferControl::ConfirmButton && d.hovered is None
                },
            })
}

pub open spec fn begin_add_location_done(s: App, t: App) -> bool {
    &&& (t.state.add_location matches Some(d) && d.kind == AddLocationKind::Local
                && d.label@.len() == 0 && d.label_cursor == 0 && d.target@.len() == 0
                && d.target_cursor == 0 && d.secret@.len() == 0 && d.secret_cursor == 0
                && d.focus == AddLocationControl::KindField && d.hovered is None)
    &&& (status_set(
                App { state: AppState { add_location: t.state.add_location, mode: InputMode::AddLocation, ..s.state }, ..s },
                t,
                "add location: choose a type, label, and target"@,
            ))
}

pub open spec fn enter_command_mode_done(s: App, t: App) -> bool {
    &&& (t.state.command.buffer@.len() == 0)
    &&& (t.state.command.cursor == 0)
    &&& (t.state.command.trigger_key == s.state.command.trigger_key)
    &&& (status_set(
                App { state: AppState { command: t.state.command, mode: InputMode::Command, ..s.state }, ..s },
                t,
                "command mode: enter a command"@,
            ))
}

pub open spec fn edit_command_done(s: App, t: App, edit: CommandEditAction) -> bool {
    &&& ((t.state.command.buffer@, t.state.command.cursor as int) == edited(
                s.state.command.buffer@,
                s.state.command.cursor as int,
                edit,
            ))
    &&& (t.state.command.trigger_key == s.state.command.trigger_key)
    &&& (t == (App { state: AppState { command: t.state.command, ..s.state }, ..s }))
}

pub open spec fn edit_transfer_done(s: App, t: App, edit: CommandEditAction) -> bool {
    &&& (match s.state.transfer {
                Some(d) => if edits_destination_spec(d.operation) && d.focus == TransferControl::DestinationField {
                    &&& t.state.transfer matches Some(n) && (n.destination@, n.cursor as int) == edited(
                        d.destination@,
                        d.cursor as int,
                        edit,
                    ) && n == (TransferDialogState { destination: n.destination, cursor: n.cursor, ..d })
                    &&& t == (App { state: AppState { transfer: t.state.transfer, ..s.state }, ..s })
                } else {
                    t == s
                },
                None => t == s,
            })
}

pub open spec fn edit_add_location_done(s: App, t: App, edit: CommandEditAction) -> bool {
    &&& (match s.state.add_location {
                Some(d) => match d.focus {
                    AddLocationControl::LabelField => t.state.add_location matches Some(n)
                        && (n.label@, n.label_cursor as int) == edited(d.label@, d.label_cursor as int, edit)
                        && n == (AddLocationDialogState { label: n.label, label_cursor: n.label_cursor, ..d })
                        && t == (App { state: AppState { add_location: t.state.add_location, ..s.state }, ..s }),
                    AddLocationControl::TargetField => t.state.add_location matches Some(n)
                        && (n.target@, n.target_cursor as int) == edited(d.target@, d.target_cursor as int, edit)
                        && n == (AddLocationDialogState { target: n.target, target_cursor: n.target_cursor, ..d })
                        && t == (App { state: AppState { add_location: t.state.add_location, ..s.state }, ..s }),
                    AddLocationControl::SecretField => if uses_secret_spec(d.kind) {
                        t.state.add_location matches Some(n)
                            && (n.secret@, n.secret_cursor as int) == edited(d.secret@, d.secret_cursor as int, edit)
                            && n == (AddLocationDialogState { secret: n.secret, secret_cursor: n.secret_cursor, ..d })
                            && t == (App { state: AppState { add_location: t.state.add_location, ..s.state }, ..s })
                    } else {
                        t == s
                    },
                    _ => t == s,
                },
                None => t == s,
            })
}

pub open spec fn move_transfer_focus_up_done(s: App, t: App) -> bool {
    &&& (t == (match s.state.transfer {
                Some(d) => {
                    let f = transfer_focus_up(d.operation, d.focus);
                    App { state: AppState { transfer: Some(TransferDialogState { focus: f, hovered: Some(f), ..d }), ..s.state }, ..s }
                },
                None => s,
            }))
}

pub open spec fn move_transfer_focus_down_done(s: App, t: App) -> bool {
    &&& (t == (match s.state.transfer {
                Some(d) => {
                    let f = transfer_focus_down(d.focus);
                    App { state: AppState { transfer: Some(TransferDialogState { focus: f, hovered: Some(f), ..d }), ..s.state }, ..s }
                },
                None => s,
            }))
}

pub open spec fn move_transfer_focus_left_done(s: App, t: App) -> bool {
    &&& (t == (match s.state.transfer {
                Some(d) => App { state: AppState { transfer: Some(transfer_sideways(d, false)), ..s.state }, ..s },
                None => s,
            }))
}

pub open spec fn move_transfer_focus_right_done(s: App, t: App) -> bool {
    &&& (t == (match s.state.transfer {
                Some(d) => App { state: AppState { transfer: Some(transfer_sideways(d, true)), ..s.state }, ..s },
                None => s,
            }))
}

pub open spec fn move_add_location_focus_up_done(s: App, t: App) -> bool {
    &&& (t == (match s.state.add_location {
                Some(d) => {
                    let f = add_location_focus_up(d.kind, d.focus);
                    App { state: AppState { add_location: Some(AddLocationDialogState { focus: f, hovered: Some(f), ..d }), ..s.state }, ..s }
                },
                None => s,
            }))
}

pub open spec fn move_add_location_focus_down_done(s: App, t: App) -> bool {
    &&& (t == (match s.state.add_location {
                Some(d) => {
                    let f = add_location_focus_down(d.kind, d.focus);
                    App { state: AppState { add_location: Some(AddLocationDialogState { focus: f, hovered: Some(f), ..d }), ..s.state }, ..s }
                },
                None => s,
            }))
}

pub open spec fn move_add_location_focus_left_done(s: App, t: App) -> bool {
    &&& (t == (match s.state.add_location {
                Some(d) => App { state: AppState { add_location: Some(add_location_sideways(d, false)), ..s.state }, ..s },
                None => s,
            }))
}

pub open spec fn move_add_location_focus_right_done(s: App, t: App) -> bool {
    &&& (t == (match s.state.add_location {
                Some(d) => App { state: AppState { add_location: Some(add_location_sideways(d, true)), ..s.state }, ..s },
                None => s,
            }))
}

pub open spec fn preview_up_done(s: App, t: App) -> bool {
    &&& (t == (match s.state.preview {
                Some(p) => App { state: AppState { preview: Some(PreviewState {
                    scroll: if p.scroll > 0 { (p.scroll - 1) as usize } else { 0 },
                    ..p
                }), ..s.state }, ..s },
                None => s,
            }))
}

pub open spec fn preview_down_done(s: App, t: App) -> bool {
    &&& (t == (match s.state.preview {
                Some(p) => App { state: AppState { preview: Some(PreviewState {
                    scroll: if p.scroll + 1 <= max_preview_scroll(p.lines@.len(), 20) {
                        (p.scroll + 1) as usize
                    } else {
                        max_preview_scroll(p.lines@.len(), 20) as usize
                    },
                    ..p
                }), ..s.state }, ..s },
                None => s,
            }))
}

pub open spec fn submit_command_done(s: App, t: App, res: Effect) -> bool {
    &&& (res matches Effect::RunCommand { text } && text@ == s.state.command.buffer@)
    &&& (t.state.command.buffer@.len() == 0)
    &&& (t.state.command.cursor == 0)
    &&& (t.state.command.trigger_key == s.state.command.trigger_key)
    &&& (t == (App { state: AppState { command: t.state.command, mode: InputMode::Normal, ..s.state }, ..s }))
}

pub open spec fn submit_transfer_done(s: App, t: App, res: Effect) -> bool {
    &&& (match s.state.transfer {
                None => t == s && res is Nothing,
                Some(d) => if d.focus == TransferControl::CancelButton {
                    &&& status_set(
                        App { state: AppState { transfer: None, mode: InputMode::Normal, ..s.state }, ..s },
                        t,
                        "file operation cancelled"@,
                    )
                    &&& res is Nothing
                } else {
                    let raw = trim_ws(d.destination@);
                    let active = s.state.pane_spec(s.state.active_pane);
                    let other = s.state.pane_spec(other_pane(s.state.active_pane));
                    match d.operation {
                        TransferOperation::Delete => {
                            &&& t == s
                            &&& res matches Effect::Delete { target } && target@ == d.source@
                        },
                        _ => if raw.len() == 0 {
                            status_set(s, t, "destination cannot be empty"@) && res is Nothing
                        } else if d.operation == TransferOperation::CreateDirectory {
                            &&& t == s
                            &&& res matches Effect::CreateDirectory { destination }
                                && destination@ == from_input_spec(d.source_kind, active.cwd@, raw)
                        } else {
                            &&& t == s
                            &&& res matches Effect::CopyOrMove { operation, source, destination, same_source }
                                && operation == d.operation && source@ == d.source@
                                && destination@ == from_input_spec(other.source.kind, other.cwd@, raw)
                                && same_source == (stable_key_spec(active.source.source_ref@) == stable_key_spec(
                                    other.source.source_ref@,
                                ))
                        },
                    }
                },
            })
}

pub open spec fn submit_add_location_done(s: App, t: App, res: Result<LocationEffect, String>) -> bool {
    &&& (match s.state.add_location {
                None => t == s && res matches Ok(LocationEffect::Nothing),
                Some(d) => if d.focus == AddLocationControl::CancelButton {
                    &&& status_set(
                        App { state: AppState { add_location: None, mode: InputMode::Normal, ..s.state }, ..s },
                        t,
                        "add location cancelled"@,
                    )
                    &&& res matches Ok(LocationEffect::Nothing)
                } else if trim_ws(d.label@).len() == 0 {
                    status_set(s, t, "label cannot be empty"@) && res matches Ok(LocationEffect::Nothing)
                } else if trim_ws(d.target@).len() == 0 {
                    status_set(s, t, "target cannot be empty"@) && res matches Ok(LocationEffect::Nothing)
                } else {
                    add_location_outcome(s, t, d, res)
                },
            })
}

pub open spec fn cancel_command_done(s: App, t: App) -> bool {
    &&& (t.state.command.buffer@.len() == 0)
    &&& (t.state.command.cursor == 0)
    &&& (t.state.command.trigger_key == s.state.command.trigger_key)
    &&& (status_set(
                App { state: AppState { command: t.state.command, mode: InputMode::Normal, ..s.state }, ..s },
                t,
                "command cancelled"@,
            ))
}

pub open spec fn cancel_transfer_done(s: App, t: App) -> bool {
    &&& (status_set(
                App { state: AppState { transfer: None, mode: InputMode::Normal, ..s.state }, ..s },
                t,
                "file operation cancelled"@,
            ))
}

pub open spec fn cancel_add_location_done(s: App, t: App) -> bool {
    &&& (status_set(
                App { state: AppState { add_location: None, mode: InputMode::Normal, ..s.state }, ..s },
                t,
                "add location cancelled"@,
            ))
}

pub open spec fn close_preview_done(s: App, t: App) -> bool {
    &&& (status_set(
                App { state: AppState { preview: None, mode: InputMode::Normal, ..s.state }, ..s },
                t,
                "preview closed"@,
            ))
}

pub open spec fn clear_status_done(s: App, t: App) -> bool {
    &&& (status_set(s, t, default_status_spec(s.state.config.key_bindings.enter_command_mode)))
}

/// What the mouse did.
#[derive(Debug, Clone, Copy, PartialEq, Eq, Structural)]
pub enum MouseKind {
    Moved,
    LeftReleased,
    Other,
}

/// A mouse event at a cell.
#[derive(Debug, Clone, Copy, PartialEq, Eq, Structural)]
pub struct MouseInput {
    pub kind: MouseKind,
    pub column: u16,
    pub row: u16,
}

/// What a mouse event does on a frame whose footer slots are `slots` and
/// whose transfer dialog (if open) is laid out as `dialog`: in normal mode
/// it highlights the footer button under the pointer and a click runs that
/// button's action; in the transfer dialog it highlights the control under
/// the pointer, and a click focuses it, confirming or cancelling on the
/// buttons.
pub open spec fn mouse_outcome(
    s: App,
    t: App,
    event: MouseInput,
    slots: Seq<Rect>,
    dialog: Option<TransferDialogLayout>,
    r: Result<Effect, String>,
) -> bool {
    let x = event.column;
    let y = event.row;
    match s.state.mode {
        InputMode::Normal => {
            let hit = footer_hit(s.state.mode, slots, x, y);
            let s1 = App { state: AppState { footer_hovered: hit, ..s.state }, ..s };
            match event.kind {
                MouseKind::Moved => t == s1 && r matches Ok(Effect::Nothing),
                MouseKind::LeftReleased => match hit {
                    Some(slot) => match footer_action_spec(slot as int) {
                        Some(a) => action_outcome(s1, t, a, r),
                        None => t == s1 && r matches Ok(Effect::Nothing),
                    },
                    None => t == s1 && r matches Ok(Effect::Nothing),
                },
                MouseKind::Other => t == s && r matches Ok(Effect::Nothing),
            }
        },
        InputMode::Transfer => match s.state.transfer {
            None => t == s && r matches Ok(Effect::Nothing),
            Some(d) => {
                let hit = match dialog {
                    Some(l) => dialog_hit_spec(l, x, y),
                    None => None,
                };
                match event.kind {
                    MouseKind::Moved => t == (App { state: AppState { transfer: Some(TransferDialogState { hovered: hit, ..d }), ..s.state }, ..s })
                        && r matches Ok(Effect::Nothing),
                    MouseKind::LeftReleased => match hit {
                        Some(c) => {
                            let s1 = App { state: AppState { transfer: Some(TransferDialogState { focus: c, hovered: Some(c), ..d }), ..s.state }, ..s };
                            if c == TransferControl::ConfirmButton {
                                action_outcome(s1, t, Action::SubmitTransfer, r)
                            } else if c == TransferControl::CancelButton {
                                action_outcome(s1, t, Action::CancelTransfer, r)
                            } else {
                                t == s1 && r matches Ok(Effect::Nothing)
                            }
                        },
                        None => t == s && r matches Ok(Effect::Nothing),
                    },
                    MouseKind::Other => t == s && r matches Ok(Effect::Nothing),
                }
            },
        },
        _ => t == s && r matches Ok(Effect::Nothing),
    }
}

/// What an action does: the state it leaves and the outside work it asks
/// for.
pub open spec fn action_outcome(s: App, t: App, a: Action, r: Result<Effect, String>) -> bool {
    match a {
        Action::MoveUp => move_up_done(s, t) && r matches Ok(Effect::Nothing),
        Action::MoveDown => move_down_done(s, t) && r matches Ok(Effect::Nothing),
        Action::SwitchPane => switch_pane_done(s, t) && r matches Ok(Effect::Nothing),
        Action::OpenLeftSourceMenu => open_source_menu_done(s, t, ActivePane::Left) && r matches Ok(Effect::Nothing),
        Action::OpenRightSourceMenu => open_source_menu_done(s, t, ActivePane::Right) && r matches Ok(Effect::Nothing),
        Action::SourceMenuBack => source_menu_back_done(s, t) && r matches Ok(Effect::Nothing),
        Action::SourceMenuSelect => r matches Ok(e) && select_source_menu_item_done(s, t, e),
        Action::CloseSourceMenu => close_source_menu_done(s, t) && r matches Ok(Effect::Nothing),
        Action::BeginPreview => r matches Ok(e) && begin_preview_done(s, t, e),
        Action::OpenSelection => r matches Ok(e) && open_selection_done(s, t, e),
        Action::GoParent => r matches Ok(e) && go_parent_done(s, t, e),
        Action::BeginCopy => begin_transfer_done(s, t, TransferOperation::Copy) && r matches Ok(Effect::Nothing),
        Action::BeginMove => begin_transfer_done(s, t, TransferOperation::Move) && r matches Ok(Effect::Nothing),
        Action::BeginCreateDirectory => begin_create_directory_done(s, t) && r matches Ok(Effect::Nothing),
        Action::BeginDelete => begin_delete_done(s, t) && r matches Ok(Effect::Nothing),
        Action::BeginAddLocation => begin_add_location_done(s, t) && r matches Ok(Effect::Nothing),
        Action::EnterCommandMode => enter_command_mode_done(s, t) && r matches Ok(Effect::Nothing),
        Action::EditCommand(edit) => edit_command_done(s, t, edit) && r matches Ok(Effect::Nothing),
        Action::EditTransfer(edit) => edit_transfer_done(s, t, edit) && r matches Ok(Effect::Nothing),
        Action::EditAddLocation(edit) => edit_add_location_done(s, t, edit) && r matches Ok(Effect::Nothing),
        Action::TransferFocusUp => move_transfer_focus_up_done(s, t) && r matches Ok(Effect::Nothing),
        Action::TransferFocusDown => move_transfer_focus_down_done(s, t) && r matches Ok(Effect::Nothing),
        Action::TransferFocusLeft => move_transfer_focus_left_done(s, t) && r matches Ok(Effect::Nothing),
        Action::TransferFocusRight => move_transfer_focus_right_done(s, t) && r matches Ok(Effect::Nothing),
        Action::AddLocationFocusUp => move_add_location_focus_up_done(s, t) && r matches Ok(Effect::Nothing),
        Action::AddLocationFocusDown => move_add_location_focus_down_done(s, t) && r matches Ok(Effect::Nothing),
        Action::AddLocationFocusLeft => move_add_location_focus_left_done(s, t) && r matches Ok(Effect::Nothing),
        Action::AddLocationFocusRight => move_add_location_focus_right_done(s, t) && r matches Ok(Effect::Nothing),
        Action::PreviewUp => preview_up_done(s, t) && r matches Ok(Effect::Nothing),
        Action::PreviewDown => preview_down_done(s, t) && r matches Ok(Effect::Nothing),
        Action::SubmitCommand => r matches Ok(e) && submit_command_done(s, t, e),
        Action::SubmitTransfer => r matches Ok(e) && submit_transfer_done(s, t, e),
        Action::SubmitAddLocation => match r {
            Ok(Effect::Location(le)) => submit_add_location_done(s, t, Ok(le)),
            Ok(_) => false,
            Err(m) => submit_add_location_done(s, t, Err(m)),
        },
        Action::CancelCommand => cancel_command_done(s, t) && r matches Ok(Effect::Nothing),
        Action::CancelTransfer => cancel_transfer_done(s, t) && r matches Ok(Effect::Nothing),
        Action::CancelAddLocation => cancel_add_location_done(s, t) && r matches Ok(Effect::Nothing),
        Action::ClosePreview => close_preview_done(s, t) && r matches Ok(Effect::Nothing),
        Action::Quit => t == (App { state: AppState { should_quit: true, ..s.state }, ..s }) && r matches Ok(Effect::Nothing),
        Action::ClearStatus => clear_status_done(s, t) && r matches Ok(Effect::Nothing),
    }
}

impl App {
    /// Carries out an action (see [`action_outcome`]); an error is a
    /// location target that cannot be read.
    pub fn handle_action(&mut self, action: Action) -> (res: Result<Effect, String>)
        requires
            can_handle(old(self).state),
            all_profile_ids(old(self).state.config.sources).len() + 3 <= usize::MAX,
        ensures
            action_outcome(*old(self), *final(self), action, res),
    {
        match action {
            Action::MoveUp => self.move_up(),
            Action::MoveDown => self.move_down(),
            Action::SwitchPane => self.switch_pane(),
            Action::OpenLeftSourceMenu => self.open_source_menu(ActivePane::Left),
            Action::OpenRightSourceMenu => self.open_source_menu(ActivePane::Right),
            Action::SourceMenuBack => self.source_menu_back(),
            Action::SourceMenuSelect => return Ok(self.select_source_menu_item()),
            Action::CloseSourceMenu => self.close_source_menu(),
            Action::BeginPreview => return Ok(self.begin_preview()),
            Action::OpenSelection => return Ok(self.open_selection()),
            Action::GoParent => return Ok(self.go_parent()),
            Action::BeginCopy => self.begin_transfer(TransferOperation::Copy),
            Action::BeginMove => self.begin_transfer(TransferOperation::Move),
            Action::BeginCreateDirectory => self.begin_create_directory(),
            Action::BeginDelete => self.begin_delete(),
            Action::BeginAddLocation => self.begin_add_location(),
            Action::EnterCommandMode => self.enter_command_mode(),
            Action::EditCommand(edit) => self.edit_command(edit),
            Action::EditTransfer(edit) => self.edit_transfer(edit),
            Action::EditAddLocation(edit) => self.edit_add_location(edit),
            Action::TransferFocusUp => self.move_transfer_focus_up(),
            Action::TransferFocusDown => self.move_transfer_focus_down(),
            Action::TransferFocusLeft => self.move_transfer_focus_left(),
            Action::TransferFocusRight => self.move_transfer_focus_right(),
            Action::AddLocationFocusUp => self.move_add_location_focus_up(),
            Action::AddLocationFocusDown => self.move_add_location_focus_down(),
            Action::AddLocationFocusLeft => self.move_add_location_focus_left(),
            Action::AddLocationFocusRight => self.move_add_location_focus_right(),
            Action::PreviewUp => self.preview_up(),
            Action::PreviewDown => self.preview_down(),
            Action::SubmitCommand => return Ok(self.submit_command()),
            Action::SubmitTransfer => return Ok(self.submit_transfer()),
            Action::SubmitAddLocation => {
                return match self.submit_add_location() {
                    Ok(le) => Ok(Effect::Location(le)),
                    Err(m) => Err(m),
                };
            },
            Action::CancelCommand => self.cancel_command(),
            Action::CancelTransfer => self.cancel_transfer(),
            Action::CancelAddLocation => self.cancel_add_location(),
            Action::ClosePreview => self.close_preview(),
            Action::Quit => self.state.should_quit = true,
            Action::ClearStatus => self.clear_status(),
        }
        Ok(Effect::Nothing)
    }

    /// Whether the application takes events in its current state: the
    /// state meets [`can_handle`] and the saved profiles leave room for new
    /// ids (the `requires` of [`App::handle_action`] and
    /// [`App::handle_mouse_at`]).
    pub fn ready_for_events(&self) -> (res: bool)
        ensures
            res == (can_handle(self.state) && all_profile_ids(self.state.config.sources).len() + 3 <= usize::MAX),
    {
        let s = &self.state;
        let mut ok = crate::editing::cursor_fits(s.command.buffer.as_str(), s.command.cursor);
        match &s.transfer {
            Some(d) => ok = ok && crate::editing::cursor_fits(d.destination.as_str(), d.cursor),
            None => {},
        }
        match &s.add_location {
            Some(d) => {
                ok = ok && crate::editing::cursor_fits(d.label.as_str(), d.label_cursor)
                    && crate::editing::cursor_fits(d.target.as_str(), d.target_cursor)
                    && crate::editing::cursor_fits(d.secret.as_str(), d.secret_cursor);
            },
            None => {},
        }
        ok = ok && s.left.selected < usize::MAX && s.right.selected < usize::MAX;
        match &s.preview {
            Some(p) => ok = ok && p.scroll < usize::MAX,
            None => {},
        }
        match &s.source_menu {
            Some(m) => ok = ok && m.category_selected < 5 && m.item_selected < usize::MAX,
            None => {},
        }
        let p = &s.config.sources;
        let (a, b, c, d) = (p.local.len(), p.ftp.len(), p.smb.len(), p.ssh.len());
        let room = a <= usize::MAX - 3 && b <= usize::MAX - 3 - a && c <= usize::MAX - 3 - a - b
            && d <= usize::MAX - 3 - a - b - c;
        ok && room
    }

    /// Handles a mouse event on a frame drawn with the given areas (see
    /// [`mouse_outcome`]).
    pub fn handle_mouse_at(&mut self, event: MouseInput, areas: &ScreenAreas) -> (res: Result<Effect, String>)
        requires
            can_handle(old(self).state),
            all_profile_ids(old(self).state.config.sources).len() + 3 <= usize::MAX,
        ensures
            mouse_outcome(*old(self), *final(self), event, areas.footer_slots@, areas.transfer_dialog, res),
    {
        match self.state.mode {
            InputMode::Normal => match event.kind {
                MouseKind::Moved => {
                    self.state.footer_hovered = footer_hit_target(&self.state, &areas.footer_slots, event.column, event.row);
                    Ok(Effect::Nothing)
                },
                MouseKind::LeftReleased => {
                    let hovered = footer_hit_target(&self.state, &areas.footer_slots, event.column, event.row);
                    self.state.footer_hovered = hovered;
                    match hovered {
                        Some(slot) => match footer_button_action(slot) {
                            Some(action) => self.handle_action(action),
                            None => Ok(Effect::Nothing),
                        },
                        None => Ok(Effect::Nothing),
                    }
                },
                MouseKind::Other => Ok(Effect::Nothing),
            },
            InputMode::Transfer => {
                let hit = match &areas.transfer_dialog {
                    Some(layout) => dialog_hit_target(&self.state, layout, event.column, event.row),
                    None => None,
                };
                match event.kind {
                    MouseKind::Moved => {
                        if let Some(transfer) = &mut self.state.transfer {
                            transfer.hovered = hit;
                        }
                        Ok(Effect::Nothing)
                    },
                    MouseKind::LeftReleased => match hit {
                        Some(control) => {
                            if let Some(transfer) = &mut self.state.transfer {
                                transfer.focus = control;
                                transfer.hovered = Some(control);
                            }
                            if control == TransferControl::ConfirmButton {
                                self.handle_action(Action::SubmitTransfer)
                            } else if control == TransferControl::CancelButton {
                                self.handle_action(Action::CancelTransfer)
                            } else {
                                Ok(Effect::Nothing)
                            }
                        },
                        None => Ok(Effect::Nothing),
                    },
                    MouseKind::Other => Ok(Effect::Nothing),
                }
            },
            _ => Ok(Effect::Nothing),
        }
    }

    /// Handles a mouse event in a frame of the given size: the frame's areas
    /// are laid out afresh (see [`screen_areas`]: the footer slots and the
    /// dialog's controls as [`slots_shape`] and [`dialog_shape`] describe
    /// them) and the event is handled on them (see
    /// [`App::handle_mouse_at`]).
    pub fn handle_mouse(&mut self, event: MouseInput, frame_area: Rect) -> (res: Result<Effect, String>)
        requires
            can_handle(old(self).state),
            all_profile_ids(old(self).state.config.sources).len() + 3 <= usize::MAX,
        ensures
            exists|slots: Seq<Rect>, dialog: Option<TransferDialogLayout>|
                slots.len() == 10 && slots_shape(frame_area, slots)
                    && (match old(self).state.transfer {
                        None => dialog is None,
                        Some(d) => dialog matches Some(l) && (l.source_field is Some) == shows_source_spec(d.operation)
                            && dialog_shape(shows_source_spec(d.operation), frame_area, l),
                    })
                    && #[trigger] mouse_outcome(*old(self), *final(self), event, slots, dialog, res),
    {
        let areas = screen_areas(&self.state, frame_area);
        let ghost before = *self;
        let res = self.handle_mouse_at(event, &areas);
        assert(mouse_outcome(before, *self, event, areas.footer_slots@, areas.transfer_dialog, res));
        res
    }

    /// The application with its state and stores.
    pub fn new(state: AppState, secrets: PlaintextSecretStore, history: TomlHistoryStore) -> (res: App)
        ensures
            res.state == state,
            res.secrets == secrets,
            res.history == history,
    {
        App { state, secrets, history }
    }

    pub fn move_transfer_focus_up(&mut self)
        ensures
            move_transfer_focus_up_done(*old(self), *final(self)),

    {
        if let Some(transfer) = &mut self.state.transfer {
            let f = match transfer.focus {
                TransferControl::SourceField => TransferControl::SourceField,
                TransferControl::DestinationField => {
                    if transfer.operation.shows_source() {
                        TransferControl::SourceField
                    } else {
                        TransferControl::DestinationField
                    }
                },
                TransferControl::ConfirmButton | TransferControl::CancelButton => TransferControl::DestinationField,
            };
            transfer.focus = f;
            transfer.hovered = Some(f);
        }
    }

    pub fn move_transfer_focus_down(&mut self)
        ensures
            move_transfer_focus_down_done(*old(self), *final(self)),

    {
        if let Some(transfer) = &mut self.state.transfer {
            let f = match transfer.focus {
                TransferControl::SourceField => TransferControl::DestinationField,
                TransferControl::DestinationField => TransferControl::ConfirmButton,
                TransferControl::ConfirmButton => TransferControl::ConfirmButton,
                TransferControl::CancelButton => TransferControl::CancelButton,
            };
            transfer.focus = f;
            transfer.hovered = Some(f);
        }
    }

    fn transfer_sideways(&mut self, right: bool)
        requires
            cursors_ok(old(self).state),
        ensures
            *final(self) == (match old(self).state.transfer {
                Some(d) => App { state: AppState { transfer: Some(transfer_sideways(d, right)), ..old(self).state }, ..*old(self) },
                None => *old(self),
            }),
    {
        if let Some(transfer) = &mut self.state.transfer {
            if transfer.focus == TransferControl::DestinationField && transfer.operation.edits_destination() {
                let edit = if right { CommandEditAction::MoveCursorRight } else { CommandEditAction::MoveCursorLeft };
                let ghost before = transfer.destination@;
                edit_text(&mut transfer.destination, &mut transfer.cursor, edit);
                assert(transfer.destination@ == before);
            } else if !right && transfer.focus == TransferControl::CancelButton {
                transfer.focus = TransferControl::ConfirmButton;
            } else if right && transfer.focus == TransferControl::ConfirmButton {
                transfer.focus = TransferControl::CancelButton;
            }
            transfer.hovered = Some(transfer.focus);
        }
    }

    pub fn move_transfer_focus_left(&mut self)
        requires
            cursors_ok(old(self).state),
        ensures
            move_transfer_focus_left_done(*old(self), *final(self)),

    {
        self.transfer_sideways(false);
    }

    pub fn move_transfer_focus_right(&mut self)
        requires
            cursors_ok(old(self).state),
        ensures
            move_transfer_focus_right_done(*old(self), *final(self)),

    {
        self.transfer_sideways(true);
    }

    pub fn move_add_location_focus_up(&mut self)
        ensures
            move_add_location_focus_up_done(*old(self), *final(self)),

    {
        if let Some(dialog) = &mut self.state.add_location {
            let f = match dialog.focus {
                AddLocationControl::KindField => AddLocationControl::KindField,
                AddLocationControl::LabelField => AddLocationControl::KindField,
                AddLocationControl::TargetField => AddLocationControl::LabelField,
                AddLocationControl::SecretField => AddLocationControl::TargetField,
                AddLocationControl::ConfirmButton | AddLocationControl::CancelButton => {
                    if dialog.kind.uses_secret() {
                        AddLocationControl::SecretField
                    } else {
                        AddLocationControl::TargetField
                    }
                },
            };
            dialog.focus = f;
            dialog.hovered = Some(f);
        }
    }

    pub fn move_add_location_focus_down(&mut self)
        ensures
            move_add_location_focus_down_done(*old(self), *final(self)),

    {
        if let Some(dialog) = &mut self.state.add_location {
            let f = match dialog.focus {
                AddLocationControl::KindField => AddLocationControl::LabelField,
                AddLocationControl::LabelField => AddLocationControl::TargetField,
                AddLocationControl::TargetField => {
                    if dialog.kind.uses_secret() {
                        AddLocationControl::SecretField
                    } else {
                        AddLocationControl::ConfirmButton
                    }
                },
                AddLocationControl::SecretField => AddLocationControl::ConfirmButton,
                AddLocationControl::ConfirmButton => AddLocationControl::ConfirmButton,
                AddLocationControl::CancelButton => AddLocationControl::CancelButton,
            };
            dialog.focus = f;
            dialog.hovered = Some(f);
        }
    }

    fn add_location_sideways(&mut self, right: bool)
        requires
            cursors_ok(old(self).state),
        ensures
            *final(self) == (match old(self).state.add_location {
                Some(d) => App { state: AppState { add_location: Some(add_location_sideways(d, right)), ..old(self).state }, ..*old(self) },
                None => *old(self),
            }),
    {
        if let Some(dialog) = &mut self.state.add_location {
            let edit = if right { CommandEditAction::MoveCursorRight } else { CommandEditAction::MoveCursorLeft };
            match dialog.focus {
                AddLocationControl::KindField => {
                    dialog.kind = if right { dialog.kind.next() } else { dialog.kind.previous() };
                },
                AddLocationControl::LabelField => {
                    let ghost before = dialog.label@;
                    edit_text(&mut dialog.label, &mut dialog.label_cursor, edit);
                    assert(dialog.label@ == before);
                },
                AddLocationControl::TargetField => {
                    let ghost before = dialog.target@;
                    edit_text(&mut dialog.target, &mut dialog.target_cursor, edit);
                    assert(dialog.target@ == before);
                },
                AddLocationControl::SecretField => {
                    if dialog.kind.uses_secret() {
                        let ghost before = dialog.secret@;
                        edit_text(&mut dialog.secret, &mut dialog.secret_cursor, edit);
                        assert(dialog.secret@ == before);
                    }
                },
                AddLocationControl::CancelButton => {
                    if !right {
                        dialog.focus = AddLocationControl::ConfirmButton;
                    }
                },
                AddLocationControl::ConfirmButton => {
                    if right {
                        dialog.focus = AddLocationControl::CancelButton;
                    }
                },
            }
            dialog.hovered = Some(dialog.focus);
        }
    }

    pub fn move_add_location_focus_left(&mut self)
        requires
            cursors_ok(old(self).state),
        ensures
            move_add_location_focus_left_done(*old(self), *final(self)),

    {
        self.add_location_sideways(false);
    }

    pub fn move_add_location_focus_right(&mut self)
        requires
            cursors_ok(old(self).state),
        ensures
            move_add_location_focus_right_done(*old(self), *final(self)),

    {
        self.add_location_sideways(true);
    }

    pub fn move_source_menu_up(&mut self)
        ensures
            *final(self) == (match old(self).state.source_menu {
                Some(m) => App { state: AppState { source_menu: Some(menu_up(m)), ..old(self).state }, ..*old(self) },
                None => *old(self),
            }),
    {
        if let Some(menu) = &mut self.state.source_menu {
            match menu.level {
                SourceMenuLevel::Categories => {
                    if menu.category_selected > 0 {
                        menu.category_selected = menu.category_selected - 1;
                    }
                },
                SourceMenuLevel::Items(_) => {
                    if menu.item_selected > 0 {
                        menu.item_selected = menu.item_selected - 1;
                    }
                },
            }
        }
    }

    /// The entries the source menu offers for a category.
    pub fn source_menu_items(&self, category: SourceCategory) -> (res: Vec<SourceMenuEntry>)
        ensures
            menu_views(res@) == menu_items_spec(self.state.config.sources, self.history.history(), category),
    {
        let sources = &self.state.config.sources;
        let ghost h = self.history.history();
        match category {
            SourceCategory::History => history_items(&self.state.config, &self.history),
            SourceCategory::Local => {
                let mut res: Vec<SourceMenuEntry> = Vec::new();
                let n = sources.local.len();
                let mut i: usize = 0;
                while i < n
                    invariant
                        i <= n,
                        n == sources.local.ids().len(),
                        menu_views(res@) =~= menu_items_spec(*sources, h, category).take(i as int),
                        category == SourceCategory::Local,
                    decreases n - i,
                {
                    let profile = sources.local.profile_at(i);
                    let ghost before = menu_views(res@);
                    res.push(SourceMenuEntry {
                        source_ref: SourceRef::SavedLocal { id: crate::text::owned(sources.local.id_at(i)) },
                        label: profile.label.clone(),
                        path_hint: LocationPath::Local(profile.path.clone()),
                    });
                    proof {
                        assert(menu_views(res@) =~= before.push(menu_entry_view(res@[i as int])));
                        assert(menu_items_spec(*sources, h, category).take(i + 1) =~= menu_items_spec(
                            *sources,
                            h,
                            category,
                        ).take(i as int).push(menu_items_spec(*sources, h, category)[i as int]));
                    }
                    i = i + 1;
                }
                res
            },
            SourceCategory::Ftp => {
                let mut res: Vec<SourceMenuEntry> = Vec::new();
                let n = sources.ftp.len();
                let mut i: usize = 0;
                while i < n
                    invariant
                        i <= n,
                        n == sources.ftp.ids().len(),
                        h == self.history.history(),
                        menu_views(res@) =~= menu_items_spec(*sources, h, category).take(i as int),
                        category == SourceCategory::Ftp,
                    decreases n - i,
                {
                    let profile = sources.ftp.profile_at(i);
                    let source = SourceRef::SavedFtp { id: crate::text::owned(sources.ftp.id_at(i)) };
                    let hint = match self.history.last_path_for(&source) {
                        Some(p) => p,
                        None => LocationPath::Remote(profile.initial_path.clone()),
                    };
                    let ghost before = menu_views(res@);
                    res.push(SourceMenuEntry { source_ref: source, label: profile.label.clone(), path_hint: hint });
                    proof {
                        assert(menu_views(res@) =~= before.push(menu_entry_view(res@[i as int])));
                        assert(menu_items_spec(*sources, h, category).take(i + 1) =~= menu_items_spec(
                            *sources,
                            h,
                            category,
                        ).take(i as int).push(menu_items_spec(*sources, h, category)[i as int]));
                    }
                    i = i + 1;
                }
                res
            },
            SourceCategory::Smb => {
                let mut res: Vec<SourceMenuEntry> = Vec::new();
                let n = sources.smb.len();
                let mut i: usize = 0;
                while i < n
                    invariant
                        i <= n,
                        n == sources.smb.ids().len(),
                        h == self.history.history(),
                        menu_views(res@) =~= menu_items_spec(*sources, h, category).take(i as int),
                        category == SourceCategory::Smb,
                    decreases n - i,
                {
                    let profile = sources.smb.profile_at(i);
                    let source = SourceRef::SavedSmb { id: crate::text::owned(sources.smb.id_at(i)) };
                    let hint = match self.history.last_path_for(&source) {
                        Some(p) => p,
                        None => LocationPath::Remote(profile.initial_path.clone()),
                    };
                    let ghost before = menu_views(res@);
                    res.push(SourceMenuEntry { source_ref: source, label: profile.label.clone(), path_hint: hint });
                    proof {
                        assert(menu_views(res@) =~= before.push(menu_entry_view(res@[i as int])));
                        assert(menu_items_spec(*sources, h, category).take(i + 1) =~= menu_items_spec(
                            *sources,
                            h,
                            category,
                        ).take(i as int).push(menu_items_spec(*sources, h, category)[i as int]));
                    }
                    i = i + 1;
                }
                res
            },
            SourceCategory::Ssh => {
                let mut res: Vec<SourceMenuEntry> = Vec::new();
                let n = sources.ssh.len();
                let mut i: usize = 0;
                while i < n
                    invariant
                        i <= n,
                        n == sources.ssh.ids().len(),
                        h == self.history.history(),
                        menu_views(res@) =~= menu_items_spec(*sources, h, category).take(i as int),
                        category == SourceCategory::Ssh,
                    decreases n - i,
                {
                    let profile = sources.ssh.profile_at(i);
                    let source = SourceRef::SavedSsh { id: crate::text::owned(sources.ssh.id_at(i)) };
                    let hint = match self.history.last_path_for(&source) {
                        Some(p) => p,
                        None => LocationPath::Remote(profile.initial_path.clone()),
                    };
                    let ghost before = menu_views(res@);
                    res.push(SourceMenuEntry { source_ref: source, label: profile.label.clone(), path_hint: hint });
                    proof {
                        assert(menu_views(res@) =~= before.push(menu_entry_view(res@[i as int])));
                        assert(menu_items_spec(*sources, h, category).take(i + 1) =~= menu_items_spec(
                            *sources,
                            h,
                            category,
                        ).take(i as int).push(menu_items_spec(*sources, h, category)[i as int]));
                    }
                    i = i + 1;
                }
                res
            },
        }
    }

    /// Opens the source menu for `pane`, which becomes active.
    pub fn open_source_menu(&mut self, pane: ActivePane)
        ensures
            open_source_menu_done(*old(self), *final(self), pane),

    {
        self.state.active_pane = pane;
        self.state.source_menu = Some(SourceMenuState::new(pane));
        self.state.mode = InputMode::SourceMenu;
        self.state.set_status(StatusMessage::info("source selection: choose a category"));
    }

    /// Closes the source menu.
    pub fn close_source_menu(&mut self)
        ensures
            close_source_menu_done(*old(self), *final(self)),

    {
        self.state.source_menu = None;
        self.state.mode = InputMode::Normal;
        self.state.set_status(StatusMessage::info("source selection cancelled"));
    }

    /// Goes back one level in the source menu: from a category's sources to
    /// the categories, or out of the menu.
    pub fn source_menu_back(&mut self)
        ensures
            source_menu_back_done(*old(self), *final(self)),

    {
        let level = match &self.state.source_menu {
            None => return,
            Some(menu) => menu.level,
        };
        match level {
            SourceMenuLevel::Categories => {
                self.state.source_menu = None;
                self.state.mode = InputMode::Normal;
            },
            SourceMenuLevel::Items(_) => {
                if let Some(menu) = &mut self.state.source_menu {
                    menu.level = SourceMenuLevel::Categories;
                    menu.item_selected = 0;
                    menu.items = Vec::new();
                }
                self.state.set_status(StatusMessage::info("source selection: choose a category"));
            },
        }
    }

    /// Chooses the selected category (listing its sources) or the selected
    /// source (asking for the pane to be switched to it).
    pub fn select_source_menu_item(&mut self) -> (res: Effect)
        requires
            old(self).state.source_menu matches Some(m) ==> m.category_selected < 5,
        ensures
            select_source_menu_item_done(*old(self), *final(self), res),

    {
        let (level, category_selected, item_selected, target_pane) = match &self.state.source_menu {
            None => return Effect::Nothing,
            Some(menu) => (menu.level, menu.category_selected, menu.item_selected, menu.target_pane),
        };
        match level {
            SourceMenuLevel::Categories => {
                let category = match &self.state.source_menu {
                    Some(menu) => menu.selected_category(),
                    None => SourceCategory::History,
                };
                let items = self.source_menu_items(category);
                if let Some(menu) = &mut self.state.source_menu {
                    menu.level = SourceMenuLevel::Items(category);
                    menu.item_selected = 0;
                    menu.items = items;
                }
                let mut text = crate::text::owned("source selection: ");
                crate::text::push_all(&mut text, category.title());
                self.state.set_status(StatusMessage::info(text.as_str()));
                Effect::Nothing
            },
            SourceMenuLevel::Items(_) => {
                match &self.state.source_menu {
                    Some(menu) => {
                        if item_selected < menu.items.len() {
                            let entry = &menu.items[item_selected];
                            Effect::SwitchSource {
                                pane: target_pane,
                                source: entry.source_ref.duplicate(),
                                path_hint: entry.path_hint.duplicate(),
                            }
                        } else {
                            Effect::Nothing
                        }
                    },
                    None => Effect::Nothing,
                }
            },
        }
    }

    /// The entry selected in the active pane, if any.
    pub open spec fn selected_spec(&self) -> Option<FileEntry> {
        let p = self.state.pane_spec(self.state.active_pane);
        if p.selected < p.entries@.len() {
            Some(p.entries@[p.selected as int])
        } else {
            None
        }
    }

    /// Opens the transfer dialog for copying or moving the selected file
    /// to the other pane's directory.
    pub fn begin_transfer(&mut self, operation: TransferOperation)
        ensures
            begin_transfer_done(*old(self), *final(self), operation),

    {
        let entry = match self.state.active_pane().selected_entry() {
            None => {
                self.state.set_status(StatusMessage::info("nothing selected"));
                return;
            },
            Some(e) => e.duplicate(),
        };
        let ghost e = entry;
        if (operation == TransferOperation::Copy || operation == TransferOperation::Move) && !entry.kind.is_file() {
            let mut text = crate::text::owned(operation.label());
            crate::text::push_all(&mut text, " supports files only");
            self.state.set_status(StatusMessage::error(text.as_str()));
            return;
        }
        let destination = self.state.inactive_pane().cwd.display();
        let label = self.state.active_pane().source.label.clone();
        let kind = self.state.active_pane().source.kind;
        self.state.transfer = Some(TransferDialogState::new(operation, entry.path, label, kind, destination));
        self.state.mode = InputMode::Transfer;
    }

    /// Opens the dialog for creating a directory, proposing `new-dir` in
    /// the active pane's directory.
    pub fn begin_create_directory(&mut self)
        ensures
            begin_create_directory_done(*old(self), *final(self)),

    {
        let active = self.state.active_pane();
        let destination = active.cwd.join_child("new-dir").display();
        let dialog = TransferDialogState::new(
            TransferOperation::CreateDirectory,
            active.cwd.duplicate(),
            active.source.label.clone(),
            active.source.kind,
            destination,
        );
        self.state.transfer = Some(dialog);
        self.state.mode = InputMode::Transfer;
    }

    /// Opens the delete dialog for the selected entry.
    pub fn begin_delete(&mut self)
        ensures
            begin_delete_done(*old(self), *final(self)),

    {
        let entry = match self.state.active_pane().selected_entry() {
            None => {
                self.state.set_status(StatusMessage::info("nothing selected"));
                return;
            },
            Some(e) => e.duplicate(),
        };
        let label = self.state.active_pane().source.label.clone();
        let kind = self.state.active_pane().source.kind;
        let dialog = TransferDialogState::new(TransferOperation::Delete, entry.path, label, kind, String::new());
        proof {
            assert(crate::text::byte_len(Seq::<char>::empty()) == 0) by {
                reveal_with_fuel(vstd::utf8::encode_utf8, 1);
            }
        }
        self.state.transfer = Some(dialog);
        self.state.mode = InputMode::Transfer;
    }

    /// Opens the add-location dialog.
    pub fn begin_add_location(&mut self)
        ensures
            begin_add_location_done(*old(self), *final(self)),

    {
        self.state.add_location = Some(AddLocationDialogState::new());
        self.state.mode = InputMode::AddLocation;
        self.state.set_status(StatusMessage::info("add location: choose a type, label, and target"));
    }

    /// Asks for the selected file to be read for the preview.
    pub fn begin_preview(&mut self) -> (res: Effect)
        ensures
            begin_preview_done(*old(self), *final(self), res),

    {
        let entry = match self.state.active_pane().selected_entry() {
            None => {
                self.state.set_status(StatusMessage::info("nothing selected"));
                return Effect::Nothing;
            },
            Some(e) => e.duplicate(),
        };
        if !entry.kind.is_file() {
            let mut text = entry.display_name();
            crate::text::push_all(&mut text, " is not a file");
            self.state.set_status(StatusMessage::error(text.as_str()));
            return Effect::Nothing;
        }
        Effect::ReadPreview { path: entry.path }
    }

    /// Shows a file's contents, read for the preview of `path`.
    pub fn show_preview(&mut self, path: LocationPath, contents: String)
        ensures
            ({
                let active = old(self).state.pane_spec(old(self).state.active_pane);
                &&& *final(self) == (App {
                    state: AppState { preview: final(self).state.preview, mode: InputMode::Preview, ..old(self).state },
                    ..*old(self)
                })
                &&& final(self).state.preview matches Some(p) && p.path == path && p.scroll == 0
                    && p.title@ == pane_title(active.source.kind, active.source.label@, active.cwd@)
                    && string_views(p.lines@) == preview_lines(contents@)
            }),
    {
        let title = self.state.active_pane().title();
        self.state.preview = Some(PreviewState::new(title, path, contents));
        self.state.mode = InputMode::Preview;
    }

    /// Opens the selected directory (through the caller, which lists it).
    pub fn open_selection(&mut self) -> (res: Effect)
        ensures
            open_selection_done(*old(self), *final(self), res),

    {
        let entry = match self.state.active_pane().selected_entry() {
            None => {
                self.state.set_status(StatusMessage::info("nothing to open"));
                return Effect::Nothing;
            },
            Some(e) => e.duplicate(),
        };
        if entry.kind.is_directory() {
            Effect::ChangeDirectory { pane: self.state.active_pane, path: entry.path }
        } else {
            let mut text = entry.display_name();
            crate::text::push_all(&mut text, " is not a directory");
            self.state.set_status(StatusMessage::info(text.as_str()));
            Effect::Nothing
        }
    }

    /// Goes up to the parent of the active pane's directory (through the
    /// caller, which lists it), unless it is the root.
    pub fn go_parent(&mut self) -> (res: Effect)
        ensures
            go_parent_done(*old(self), *final(self), res),

    {
        match self.state.active_pane().parent_target() {
            Some(path) => Effect::ChangeDirectory { pane: self.state.active_pane, path },
            None => {
                self.state.set_status(StatusMessage::info("already at filesystem root"));
                Effect::Nothing
            },
        }
    }

    /// Opens the command line, empty.
    pub fn enter_command_mode(&mut self)
        ensures
            enter_command_mode_done(*old(self), *final(self)),

    {
        self.state.mode = InputMode::Command;
        self.state.command.clear();
        self.state.set_status(StatusMessage::info("command mode: enter a command"));
    }

    /// Edits the command line.
    pub fn edit_command(&mut self, edit: CommandEditAction)
        requires
            cursors_ok(old(self).state),
        ensures
            edit_command_done(*old(self), *final(self), edit),

    {
        edit_text(&mut self.state.command.buffer, &mut self.state.command.cursor, edit);
    }

    /// Edits the destination of the transfer dialog, when it is focused and
    /// editable.
    pub fn edit_transfer(&mut self, edit: CommandEditAction)
        requires
            cursors_ok(old(self).state),
        ensures
            edit_transfer_done(*old(self), *final(self), edit),

    {
        if let Some(transfer) = &mut self.state.transfer {
            if transfer.operation.edits_destination() && transfer.focus == TransferControl::DestinationField {
                edit_text(&mut transfer.destination, &mut transfer.cursor, edit);
            }
        }
    }

    /// Edits the focused text field of the add-location dialog (the secret
    /// only for kinds that use one).
    pub fn edit_add_location(&mut self, edit: CommandEditAction)
        requires
            cursors_ok(old(self).state),
        ensures
            edit_add_location_done(*old(self), *final(self), edit),

    {
        if let Some(dialog) = &mut self.state.add_location {
            match dialog.focus {
                AddLocationControl::LabelField => edit_text(&mut dialog.label, &mut dialog.label_cursor, edit),
                AddLocationControl::TargetField => edit_text(&mut dialog.target, &mut dialog.target_cursor, edit),
                AddLocationControl::SecretField => {
                    if dialog.kind.uses_secret() {
                        edit_text(&mut dialog.secret, &mut dialog.secret_cursor, edit);
                    }
                },
                _ => {},
            }
        }
    }

    /// Scrolls the preview up.
    pub fn preview_up(&mut self)
        ensures
            preview_up_done(*old(self), *final(self)),

    {
        if let Some(preview) = &mut self.state.preview {
            preview.move_up();
        }
    }

    /// Scrolls the preview down (for a viewport of twenty rows).
    pub fn preview_down(&mut self)
        requires
            old(self).state.preview matches Some(p) ==> p.scroll < usize::MAX,
        ensures
            preview_down_done(*old(self), *final(self)),

    {
        if let Some(preview) = &mut self.state.preview {
            preview.move_down(20);
        }
    }

    /// Leaves the command line without running it.
    pub fn cancel_command(&mut self)
        ensures
            cancel_command_done(*old(self), *final(self)),

    {
        self.state.command.clear();
        self.state.mode = InputMode::Normal;
        self.state.set_status(StatusMessage::info("command cancelled"));
    }

    /// Closes the transfer dialog without acting.
    pub fn cancel_transfer(&mut self)
        ensures
            cancel_transfer_done(*old(self), *final(self)),

    {
        self.state.transfer = None;
        self.state.mode = InputMode::Normal;
        self.state.set_status(StatusMessage::info("file operation cancelled"));
    }

    /// Closes the add-location dialog without saving.
    pub fn cancel_add_location(&mut self)
        ensures
            cancel_add_location_done(*old(self), *final(self)),

    {
        self.state.add_location = None;
        self.state.mode = InputMode::Normal;
        self.state.set_status(StatusMessage::info("add location cancelled"));
    }

    /// Closes the preview.
    pub fn close_preview(&mut self)
        ensures
            close_preview_done(*old(self), *final(self)),

    {
        self.state.preview = None;
        self.state.mode = InputMode::Normal;
        self.state.set_status(StatusMessage::info("preview closed"));
    }

    /// Shows the help line again.
    pub fn clear_status(&mut self)
        ensures
            clear_status_done(*old(self), *final(self)),

    {
        let text = default_status_text(&self.state.config);
        self.state.set_status(StatusMessage::info(text.as_str()));
    }

    /// Records in the history that `pane` shows its directory.
    pub fn record_history_for_pane(&mut self, pane: ActivePane)
        ensures
            final(self).state == old(self).state,
            final(self).secrets == old(self).secrets,
            history_recorded(old(self).history.history(), final(self).history.history(), old(self).state.pane_spec(pane)),
    {
        let p = match pane {
            ActivePane::Left => &self.state.left,
            ActivePane::Right => &self.state.right,
        };
        self.history.record(&p.source.source_ref, p.source.label.as_str(), &p.cwd);
    }

    /// `pane` now shows `cwd`, listed as `entries`; the history remembers
    /// it and the status line names it.
    pub fn change_directory(&mut self, pane: ActivePane, cwd: LocationPath, entries: Vec<FileEntry>)
        ensures
            ({
                let p = listed(old(self).state.pane_spec(pane), cwd, entries);
                &&& final(self).state == (AppState { status: final(self).state.status, ..with_pane(old(self).state, pane, p) })
                &&& final(self).state.status.text@ == "active pane: "@ + location_text(cwd@)
                &&& final(self).secrets == old(self).secrets
                &&& history_recorded(old(self).history.history(), final(self).history.history(), p)
            }),
    {
        let text = crate::text::concat("active pane: ", cwd.display().as_str());
        match pane {
            ActivePane::Left => self.state.left.set_cwd(cwd, entries),
            ActivePane::Right => self.state.right.set_cwd(cwd, entries),
        }
        self.record_history_for_pane(pane);
        self.state.set_status(StatusMessage::info(text.as_str()));
    }

    /// A directory change of `pane` failed with `message`: the pane keeps
    /// its directory and entries, remembers the error when the directory was
    /// reached but could not be listed (`unlisted`), and the status line
    /// shows the error.
    pub fn directory_change_failed(&mut self, pane: ActivePane, message: String, unlisted: bool)
        ensures
            ({
                let p = old(self).state.pane_spec(pane);
                let q = if unlisted { PaneState { last_error: Some(message), ..p } } else { p };
                &&& final(self).state == (AppState { status: final(self).state.status, ..with_pane(old(self).state, pane, q) })
                &&& final(self).state.status.text@ == message@
                &&& final(self).secrets == old(self).secrets
                &&& final(self).history == old(self).history
            }),
    {
        let status = StatusMessage::error(message.as_str());
        if unlisted {
            match pane {
                ActivePane::Left => self.state.left.last_error = Some(message),
                ActivePane::Right => self.state.right.last_error = Some(message),
            }
        }
        self.state.set_status(status);
    }

    /// The directory a pane switched to `source` opens at: the one asked
    /// for, else the last one shown for that source, else the source's
    /// default.
    pub fn switch_target_path(&self, source: &SourceRef, preferred: Option<LocationPath>, default_path: LocationPath) -> (res: LocationPath)
        ensures
            match preferred {
                Some(p) => res == p,
                None => match first_path_for(self.history.history(), stable_key_spec(source@)) {
                    Some(h) => res@ == h,
                    None => res == default_path,
                },
            },
    {
        match preferred {
            Some(p) => p,
            None => match self.history.last_path_for(source) {
                Some(h) => h,
                None => default_path,
            },
        }
    }

    /// `pane` now shows another source, at `cwd` listed as `entries`; the
    /// history remembers it.
    pub fn replace_pane_source(
        &mut self,
        pane: ActivePane,
        source_ref: SourceRef,
        kind: SourceKind,
        label: String,
        cwd: LocationPath,
        entries: Vec<FileEntry>,
    )
        ensures
            ({
                let p = PaneState {
                    source: PaneSourceState { source_ref, kind, label },
                    cwd,
                    entries,
                    selected: 0,
                    scroll: 0,
                    last_error: None,
                };
                &&& final(self).state == with_pane(old(self).state, pane, p)
                &&& final(self).secrets == old(self).secrets
                &&& history_recorded(old(self).history.history(), final(self).history.history(), p)
            }),
    {
        match pane {
            ActivePane::Left => self.state.left.replace_source(source_ref, kind, label, cwd, entries),
            ActivePane::Right => self.state.right.replace_source(source_ref, kind, label, cwd, entries),
        }
        self.record_history_for_pane(pane);
    }

    /// Closes the source menu after its pane switched source: the status
    /// names the pane, and a source chosen from the history makes its pane
    /// active.
    pub fn source_selected(&mut self)
        ensures
            match old(self).state.source_menu {
                Some(m) => {
                    let active = match m.level {
                        SourceMenuLevel::Items(SourceCategory::History) => m.target_pane,
                        _ => old(self).state.active_pane,
                    };
                    let p = old(self).state.pane_spec(m.target_pane);
                    status_set(
                        App { state: AppState { source_menu: None, mode: InputMode::Normal, active_pane: active, ..old(self).state }, ..*old(self) },
                        *final(self),
                        "active pane: "@ + pane_title(p.source.kind, p.source.label@, p.cwd@),
                    )
                },
                None => *final(self) == *old(self),
            },
    {
        let (target, level) = match &self.state.source_menu {
            Some(menu) => (menu.target_pane, menu.level),
            None => return,
        };
        self.state.source_menu = None;
        self.state.mode = InputMode::Normal;
        let title = self.state.pane(target).title();
        let text = crate::text::concat("active pane: ", title.as_str());
        self.state.set_status(StatusMessage::info(text.as_str()));
        if level == SourceMenuLevel::Items(SourceCategory::History) {
            self.state.active_pane = target;
        }
    }

    /// Leaves the command line and asks for its text to be run.
    pub fn submit_command(&mut self) -> (res: Effect)
        ensures
            submit_command_done(*old(self), *final(self), res),

    {
        let text = self.state.command.buffer.clone();
        self.state.command.clear();
        self.state.mode = InputMode::Normal;
        Effect::RunCommand { text }
    }

    /// Carries out the transfer dialog: closes it when Cancel is focused,
    /// refuses an empty destination, and otherwise asks for the operation.
    pub fn submit_transfer(&mut self) -> (res: Effect)
        ensures
            submit_transfer_done(*old(self), *final(self), res),

    {
        let (operation, focus) = match &self.state.transfer {
            None => return Effect::Nothing,
            Some(d) => (d.operation, d.focus),
        };
        if focus == TransferControl::CancelButton {
            self.cancel_transfer();
            return Effect::Nothing;
        }
        let (source, raw) = match &self.state.transfer {
            Some(d) => (d.source.duplicate(), crate::text::trim(d.destination.as_str())),
            None => return Effect::Nothing,
        };
        if operation == TransferOperation::Delete {
            return Effect::Delete { target: source };
        }
        if raw.as_str().is_empty() {
            self.state.set_status(StatusMessage::error("destination cannot be empty"));
            return Effect::Nothing;
        }
        if operation == TransferOperation::CreateDirectory {
            let kind = match &self.state.transfer {
                Some(d) => d.source_kind,
                None => SourceKind::Local,
            };
            let destination = LocationPath::from_input(kind, &self.state.active_pane().cwd, raw.as_str());
            return Effect::CreateDirectory { destination };
        }
        let other = self.state.inactive_pane();
        let destination = LocationPath::from_input(other.source.kind, &other.cwd, raw.as_str());
        let active_key = self.state.active_pane().source.source_ref.stable_key();
        let other_key = other.source.source_ref.stable_key();
        let same_source = crate::text::str_eq(active_key.as_str(), other_key.as_str());
        Effect::CopyOrMove { operation, source, destination, same_source }
    }

    /// Closes the transfer dialog after its operation was carried out to
    /// `destination`: both panes take their new listings (`left_entries`,
    /// `right_entries`), the history remembers both, and the status line
    /// says what was done.
    pub fn finish_transfer(&mut self, destination: &LocationPath, left_entries: Vec<FileEntry>, right_entries: Vec<FileEntry>)
        requires
            old(self).state.transfer is Some,
        ensures
            ({
                let d = old(self).state.transfer.unwrap();
                let l = listed(old(self).state.left, old(self).state.left.cwd, left_entries);
                let r = listed(old(self).state.right, old(self).state.right.cwd, right_entries);
                &&& final(self).state == (AppState {
                    status: final(self).state.status,
                    transfer: None,
                    mode: InputMode::Normal,
                    left: l,
                    right: r,
                    ..old(self).state
                })
                &&& final(self).state.status.text@ == operation_past_tense(d.operation) + " "@
                    + success_target_spec(d.operation, d.source@, destination@)
                &&& final(self).secrets == old(self).secrets
                &&& exists|h: Seq<HistoryEntryView>| history_recorded(old(self).history.history(), h, l)
                    && history_recorded(h, final(self).history.history(), r)
            }),
    {
        let mut text = String::new();
        match &self.state.transfer {
            Some(d) => {
                text = crate::text::concat(d.operation.past_tense(), " ");
                let target = success_target(d, destination);
                crate::text::push_all(&mut text, target.as_str());
            },
            None => {},
        }
        self.state.mode = InputMode::Normal;
        self.state.transfer = None;
        self.state.left.refresh(left_entries);
        self.state.right.refresh(right_entries);
        let ghost h0 = self.history.history();
        self.record_history_for_pane(ActivePane::Left);
        let ghost h1 = self.history.history();
        self.record_history_for_pane(ActivePane::Right);
        self.state.set_status(StatusMessage::info(text.as_str()));
    }

    /// Closes the add-location dialog after a location was saved.
    fn location_saved(&mut self, kind_name: &str, label: &str)
        ensures
            *final(self) == (App {
                state: AppState { status: final(self).state.status, add_location: None, mode: InputMode::Normal, ..old(self).state },
                ..*old(self)
            }),
            final(self).state.status.text@ == "saved "@ + kind_name@ + " location: "@ + label@,
    {
        self.state.add_location = None;
        self.state.mode = InputMode::Normal;
        let mut text = crate::text::concat("saved ", kind_name);
        crate::text::push_all(&mut text, " location: ");
        crate::text::push_all(&mut text, label);
        self.state.set_status(StatusMessage::info(text.as_str()));
    }

    /// Saves a new local location whose directory was found to exist.
    pub fn save_local_location(&mut self, id: String, label: String, path: String) -> (res: LocationEffect)
        ensures
            res is Persist,
            location_saved(*old(self), *final(self), "local"@, label@),
            map_gains(old(self).state.config.sources.local, final(self).state.config.sources.local, id@),
            final(self).state.config.sources.local.lookup(id@) == (LocalSourceProfile { label, path }),
            final(self).state.config.sources.ftp == old(self).state.config.sources.ftp,
            final(self).state.config.sources.smb == old(self).state.config.sources.smb,
            final(self).state.config.sources.ssh == old(self).state.config.sources.ssh,
            final(self).secrets == old(self).secrets,
    {
        let shown = label.clone();
        self.state.config.sources.local.insert(id, LocalSourceProfile { label, path });
        self.location_saved("local", shown.as_str());
        LocationEffect::Persist
    }

    /// Carries out the add-location dialog: closes it when Cancel is
    /// focused; refuses an empty label or target; otherwise gives the new
    /// profile a fresh id and saves it (a local one after its directory is
    /// checked; a remote one, read from its target URL, only with a
    /// password, which goes to the secret store).  A target that cannot be
    /// read is an error.
    pub fn submit_add_location(&mut self) -> (res: Result<LocationEffect, String>)
        requires
            all_profile_ids(old(self).state.config.sources).len() + 3 <= usize::MAX,
        ensures
            submit_add_location_done(*old(self), *final(self), res),

    {
        let (focus, kind) = match &self.state.add_location {
            None => return Ok(LocationEffect::Nothing),
            Some(d) => (d.focus, d.kind),
        };
        if focus == AddLocationControl::CancelButton {
            self.cancel_add_location();
            return Ok(LocationEffect::Nothing);
        }
        let (label, target, secret) = match &self.state.add_location {
            Some(d) => (crate::text::trim(d.label.as_str()), crate::text::trim(d.target.as_str()),
                normalize_optional_secret(d.secret.as_str())),
            None => return Ok(LocationEffect::Nothing),
        };
        if label.as_str().is_empty() {
            self.state.set_status(StatusMessage::error("label cannot be empty"));
            return Ok(LocationEffect::Nothing);
        }
        if target.as_str().is_empty() {
            self.state.set_status(StatusMessage::error("target cannot be empty"));
            return Ok(LocationEffect::Nothing);
        }
        let id = unique_profile_id(label.as_str(), &self.state.config);
        let typed: Option<&str> = match &secret {
            Some(t) => Some(t.as_str()),
            None => None,
        };
        match kind {
            AddLocationKind::Local => Ok(LocationEffect::SaveLocal { id, label, target }),
            AddLocationKind::Ftp => {
                let parsed = parse_ftp_target(target.as_str(), typed)?;
                if parsed.secret.is_none() {
                    self.state.set_status(StatusMessage::error("ftp locations require a password"));
                    return Ok(LocationEffect::Nothing);
                }
                let mut profile = parsed.profile;
                profile.label = label.clone();
                self.state.config.sources.ftp.insert(id.clone(), profile);
                self.secrets.set_ftp_password(id.as_str(), parsed.secret);
                self.location_saved("ftp", label.as_str());
                Ok(LocationEffect::Persist)
            },
            AddLocationKind::Smb => {
                let parsed = parse_smb_target(target.as_str(), typed)?;
                if parsed.secret.is_none() {
                    self.state.set_status(StatusMessage::error("smb locations require a password"));
                    return Ok(LocationEffect::Nothing);
                }
                let mut profile = parsed.profile;
                profile.label = label.clone();
                self.state.config.sources.smb.insert(id.clone(), profile);
                self.secrets.set_smb_password(id.as_str(), parsed.secret);
                self.location_saved("smb", label.as_str());
                Ok(LocationEffect::Persist)
            },
            AddLocationKind::Ssh => {
                let parsed = parse_ssh_target(target.as_str(), typed)?;
                if parsed.secret.is_none() {
                    self.state.set_status(StatusMessage::error("ssh locations require a password"));
                    return Ok(LocationEffect::Nothing);
                }
                let mut profile = parsed.profile;
                profile.label = label.clone();
                self.state.config.sources.ssh.insert(id.clone(), profile);
                self.secrets.set_ssh_password(id.as_str(), parsed.secret);
                self.secrets.set_ssh_key_passphrase(id.as_str(), None);
                self.location_saved("ssh", label.as_str());
                Ok(LocationEffect::Persist)
            },
        }
    }

    /// Moves the selection up in whatever the mode shows.
    pub fn move_up(&mut self)
        ensures
            move_up_done(*old(self), *final(self)),

    {
        match self.state.mode {
            InputMode::SourceMenu => self.move_source_menu_up(),
            InputMode::AddLocation => self.move_add_location_focus_up(),
            _ => match self.state.active_pane {
                ActivePane::Left => self.state.left.move_up(),
                ActivePane::Right => self.state.right.move_up(),
            },
        }
    }

    /// Moves the selection down in whatever the mode shows.
    pub fn move_down(&mut self)
        requires
            can_handle(old(self).state),
        ensures
            move_down_done(*old(self), *final(self)),

    {
        match self.state.mode {
            InputMode::SourceMenu => self.move_source_menu_down(),
            InputMode::AddLocation => self.move_add_location_focus_down(),
            _ => match self.state.active_pane {
                ActivePane::Left => self.state.left.move_down(),
                ActivePane::Right => self.state.right.move_down(),
            },
        }
    }

    /// Makes the other pane active.
    pub fn switch_pane(&mut self)
        ensures
            switch_pane_done(*old(self), *final(self)),

    {
        let next = match self.state.active_pane {
            ActivePane::Left => ActivePane::Right,
            ActivePane::Right => ActivePane::Left,
        };
        self.state.active_pane = next;
        let text = match next {
            ActivePane::Left => "active pane: left",
            ActivePane::Right => "active pane: right",
        };
        proof {
            reveal_strlit("active pane: left");
            reveal_strlit("active pane: right");
            reveal_strlit("active pane: ");
            reveal_strlit("left");
            reveal_strlit("right");
            assert("active pane: "@ + "left"@ =~= "active pane: left"@);
            assert("active pane: "@ + "right"@ =~= "active pane: right"@);
        }
        self.state.set_status(StatusMessage::info(text));
    }

    pub fn move_source_menu_down(&mut self)
        requires
            old(self).state.source_menu matches Some(m) ==> m.category_selected < usize::MAX && m.item_selected < usize::MAX,
        ensures
            *final(self) == (match old(self).state.source_menu {
                Some(m) => App { state: AppState { source_menu: Some(menu_down(m)), ..old(self).state }, ..*old(self) },
                None => *old(self),
            }),
    {
        if let Some(menu) = &mut self.state.source_menu {
            match menu.level {
                SourceMenuLevel::Categories => {
                    let next = menu.category_selected + 1;
                    menu.category_selected = if next < 4 { next } else { 4 };
                },
                SourceMenuLevel::Items(_) => {
                    if menu.items.len() > 0 {
                        let next = menu.item_selected + 1;
                        let last = menu.items.len() - 1;
                        menu.item_selected = if next < last { next } else { last };
                    }
                },
            }
        }
    }
}

} // verus!

verus! {

/// Every text cursor of the state sits on a character boundary.
pub open spec fn boundaries_ok(s: AppState) -> bool {
    &&& is_boundary(s.command.buffer@, s.command.cursor as int)
    &&& (s.transfer matches Some(d) ==> is_boundary(d.destination@, d.cursor as int))
    &&& (s.add_location matches Some(d) ==> {
        &&& is_boundary(d.label@, d.label_cursor as int)
        &&& is_boundary(d.target@, d.target_cursor as int)
        &&& is_boundary(d.secret@, d.secret_cursor as int)
    })
}

/// The destination of the transfer dialog has a byte length that fits in
/// a `usize` (as every string in memory does).
pub open spec fn dialog_text_fits(s: AppState) -> bool {
    s.transfer matches Some(d) ==> crate::text::byte_len(d.destination@) <= usize::MAX
}

/// An edited cursor is on a boundary of the edited text and stays within
/// four bytes of the old text's end.
proof fn lemma_edit_cursor(s: Seq<char>, cursor: int, edit: CommandEditAction)
    requires
        is_boundary(s, cursor),
        byte_len_ok(s),
    ensures
        is_boundary(edited(s, cursor, edit).0, (edited(s, cursor, edit).1 as usize) as int),
        is_boundary(edited(s, cursor, edit).0, edited(s, cursor, edit).1),
{
    crate::editing::lemma_edit_keeps_boundary(s, cursor, edit);
    let t = edited(s, cursor, edit).0;
    let c = edited(s, cursor, edit).1;
    let k = boundary_index(t, c);
    crate::editing::lemma_prefix_bytes_bounded(t, k);
    let ks = boundary_index(s, cursor);
    crate::editing::lemma_prefix_bytes_bounded(s, ks);
    match edit {
        CommandEditAction::Insert(ch) => {
            crate::editing::lemma_char_width(ch);
        },
        CommandEditAction::Backspace => {
            if cursor > 0 && ks > 0 {
                crate::editing::lemma_prefix_bytes_bounded(s, ks - 1);
            }
        },
        CommandEditAction::MoveCursorLeft => {
            if cursor > 0 && ks > 0 {
                crate::editing::lemma_prefix_bytes_bounded(s, ks - 1);
            }
        },
        CommandEditAction::MoveCursorRight => {
            if cursor < crate::text::byte_len(s) && ks < s.len() {
                crate::editing::lemma_prefix_bytes_bounded(s, ks + 1);
            }
        },
    }
}

/// Every action leaves each text cursor on a character boundary (given
/// that a new dialog's text fits in memory).
pub proof fn law_actions_keep_cursors_on_boundaries(s: App, t: App, a: Action, r: Result<Effect, String>)
    requires
        can_handle(s.state),
        action_outcome(s, t, a, r),
        dialog_text_fits(t.state),
    ensures
        boundaries_ok(t.state),
{
    match a {
        Action::EditCommand(_) | Action::EditTransfer(_) | Action::EditAddLocation(_) => {
            lemma_edits_keep_boundaries(s, t, a, r);
        },
        Action::TransferFocusLeft | Action::TransferFocusRight | Action::AddLocationFocusLeft
        | Action::AddLocationFocusRight | Action::MoveUp | Action::MoveDown => {
            lemma_moves_keep_boundaries(s, t, a, r);
        },
        Action::BeginCopy | Action::BeginMove | Action::BeginCreateDirectory => {
            lemma_new_dialog_boundaries(s, t, a, r);
        },
        Action::SubmitAddLocation => {
            lemma_submit_add_location_keeps_boundaries(s, t, r);
        },
        _ => {
            lemma_other_actions_keep_boundaries(s, t, a, r);
        },
    }
}

proof fn lemma_edits_keep_boundaries(s: App, t: App, a: Action, r: Result<Effect, String>)
    requires
        can_handle(s.state),
        action_outcome(s, t, a, r),
        a is EditCommand || a is EditTransfer || a is EditAddLocation,
    ensures
        boundaries_ok(t.state),
{
    let st = s.state;
    match a {
        Action::EditCommand(e) => {
            lemma_edit_cursor(st.command.buffer@, st.command.cursor as int, e);
        },
        Action::EditTransfer(e) => {
            if let Some(d) = st.transfer {
                lemma_edit_cursor(d.destination@, d.cursor as int, e);
            }
        },
        Action::EditAddLocation(e) => {
            if let Some(d) = st.add_location {
                lemma_edit_cursor(d.label@, d.label_cursor as int, e);
                lemma_edit_cursor(d.target@, d.target_cursor as int, e);
                lemma_edit_cursor(d.secret@, d.secret_cursor as int, e);
            }
        },
        _ => {},
    }
}

proof fn lemma_moves_keep_boundaries(s: App, t: App, a: Action, r: Result<Effect, String>)
    requires
        can_handle(s.state),
        action_outcome(s, t, a, r),
        a is TransferFocusLeft || a is TransferFocusRight || a is AddLocationFocusLeft
            || a is AddLocationFocusRight || a is MoveUp || a is MoveDown,
    ensures
        boundaries_ok(t.state),
{
    let st = s.state;
    if let Some(d) = st.transfer {
        lemma_edit_cursor(d.destination@, d.cursor as int, CommandEditAction::MoveCursorLeft);
        lemma_edit_cursor(d.destination@, d.cursor as int, CommandEditAction::MoveCursorRight);
    }
    if let Some(d) = st.add_location {
        lemma_edit_cursor(d.label@, d.label_cursor as int, CommandEditAction::MoveCursorLeft);
        lemma_edit_cursor(d.label@, d.label_cursor as int, CommandEditAction::MoveCursorRight);
        lemma_edit_cursor(d.target@, d.target_cursor as int, CommandEditAction::MoveCursorLeft);
        lemma_edit_cursor(d.target@, d.target_cursor as int, CommandEditAction::MoveCursorRight);
        lemma_edit_cursor(d.secret@, d.secret_cursor as int, CommandEditAction::MoveCursorLeft);
        lemma_edit_cursor(d.secret@, d.secret_cursor as int, CommandEditAction::MoveCursorRight);
    }
}

proof fn lemma_new_dialog_boundaries(s: App, t: App, a: Action, r: Result<Effect, String>)
    requires
        can_handle(s.state),
        action_outcome(s, t, a, r),
        dialog_text_fits(t.state),
        a is BeginCopy || a is BeginMove || a is BeginCreateDirectory,
    ensures
        boundaries_ok(t.state),
{
    if let Some(d) = t.state.transfer {
        crate::editing::lemma_ends_are_boundaries(d.destination@);
    }
}

proof fn lemma_other_actions_keep_boundaries(s: App, t: App, a: Action, r: Result<Effect, String>)
    requires
        can_handle(s.state),
        action_outcome(s, t, a, r),
        !(a is EditCommand || a is EditTransfer || a is EditAddLocation || a is TransferFocusLeft
            || a is TransferFocusRight || a is AddLocationFocusLeft || a is AddLocationFocusRight
            || a is MoveUp || a is MoveDown || a is BeginCopy || a is BeginMove
            || a is BeginCreateDirectory || a is SubmitAddLocation),
    ensures
        boundaries_ok(t.state),
{
    crate::editing::lemma_ends_are_boundaries(Seq::<char>::empty());
    match a {
        Action::SwitchPane => {},
        Action::OpenLeftSourceMenu => {},
        Action::OpenRightSourceMenu => {},
        Action::SourceMenuBack => {},
        Action::SourceMenuSelect => {},
        Action::CloseSourceMenu => {},
        Action::BeginPreview => {},
        Action::OpenSelection => {},
        Action::GoParent => {},
        Action::BeginDelete => {
            if let Some(d) = t.state.transfer {
                if d.destination@.len() == 0 {
                    assert(d.destination@ =~= Seq::<char>::empty());
                }
            }
        },
        Action::BeginAddLocation => {
            if let Some(d) = t.state.add_location {
                if d.label@.len() == 0 && d.target@.len() == 0 && d.secret@.len() == 0 {
                    assert(d.label@ =~= Seq::<char>::empty());
                    assert(d.target@ =~= Seq::<char>::empty());
                    assert(d.secret@ =~= Seq::<char>::empty());
                }
            }
        },
        Action::EnterCommandMode => {
            if t.state.command.buffer@.len() == 0 {
                assert(t.state.command.buffer@ =~= Seq::<char>::empty());
            }
        },
        Action::TransferFocusUp => {},
        Action::TransferFocusDown => {},
        Action::AddLocationFocusUp => {},
        Action::AddLocationFocusDown => {},
        Action::PreviewUp => {},
        Action::PreviewDown => {},
        Action::SubmitCommand => {
            if t.state.command.buffer@.len() == 0 {
                assert(t.state.command.buffer@ =~= Seq::<char>::empty());
            }
        },
        Action::SubmitTransfer => {},
        Action::CancelCommand => {
            if t.state.command.buffer@.len() == 0 {
                assert(t.state.command.buffer@ =~= Seq::<char>::empty());
            }
        },
        Action::CancelTransfer => {},
        Action::CancelAddLocation => {},
        Action::ClosePreview => {},
        Action::Quit => {},
        Action::ClearStatus => {},
        _ => {},
    }
}

proof fn lemma_submit_add_location_keeps_boundaries(s: App, t: App, r: Result<Effect, String>)
    requires
        can_handle(s.state),
        action_outcome(s, t, Action::SubmitAddLocation, r),
    ensures
        boundaries_ok(t.state),
{
}

} // verus!
