//! Application state: panes, dialogs, the status line.
use vstd::prelude::*;

use crate::config::{Config, ConfigurableKey, key_label_spec, string_views};
use crate::source::{
    EntryKind, FileEntry, FileEntryView, LocationPath, LocationPathView, SourceCategory, SourceKind,
    SourceRef, SourceRefView, entry_views, location_parent, location_text, source_kind_label,
};
use crate::text::{byte_len, concat, join_strings, joined, lines_of, owned, push_all, str_eq, str_len, text_lines};

verus! {

/// Which pane is active.
#[derive(Debug, Clone, Copy, PartialEq, Eq, Structural)]
pub enum ActivePane {
    Left,
    Right,
}

/// What key presses currently drive.
#[derive(Debug, Clone, Copy, PartialEq, Eq, Structural)]
pub enum InputMode {
    Normal,
    Command,
    Transfer,
    Preview,
    SourceMenu,
    AddLocation,
}

// ---------------------------------------------------------------------------
// Status line and command line
// ---------------------------------------------------------------------------

/// The message shown in the status line.
#[derive(Debug, Clone)]
pub struct StatusMessage {
    pub text: String,
}

impl StatusMessage {
    /// An informational message.
    pub fn info(text: &str) -> (res: StatusMessage)
        ensures
            res.text@ == text@,
    {
        StatusMessage { text: owned(text) }
    }

    /// An error message.
    pub fn error(text: &str) -> (res: StatusMessage)
        ensures
            res.text@ == text@,
    {
        StatusMessage { text: owned(text) }
    }
}

/// The command line: its text, the cursor (a byte offset into the text)
/// and the key that opened it.
#[derive(Debug, Clone)]
pub struct CommandState {
    pub buffer: String,
    pub cursor: usize,
    pub trigger_key: ConfigurableKey,
}

impl CommandState {
    /// An empty command line opened by `trigger_key`.
    pub fn new(trigger_key: ConfigurableKey) -> (res: CommandState)
        ensures
            res.buffer@.len() == 0,
            res.cursor == 0,
            res.trigger_key == trigger_key,
    {
        CommandState { buffer: String::new(), cursor: 0, trigger_key }
    }

    /// Empties the command line.
    pub fn clear(&mut self)
        ensures
            final(self).buffer@.len() == 0,
            final(self).cursor == 0,
            final(self).trigger_key == old(self).trigger_key,
    {
        self.buffer = String::new();
        self.cursor = 0;
    }
}

// ---------------------------------------------------------------------------
// File operations
// ---------------------------------------------------------------------------

/// A file operation asked for in the transfer dialog.
#[derive(Debug, Clone, Copy, PartialEq, Eq, Structural)]
pub enum TransferOperation {
    Copy,
    Move,
    CreateDirectory,
    Delete,
}

pub open spec fn operation_label(op: TransferOperation) -> Seq<char> {
    match op {
        TransferOperation::Copy => "copy"@,
        TransferOperation::Move => "move"@,
        TransferOperation::CreateDirectory => "create directory"@,
        TransferOperation::Delete => "delete"@,
    }
}

pub open spec fn operation_title(op: TransferOperation) -> Seq<char> {
    match op {
        TransferOperation::Copy => "Copy File"@,
        TransferOperation::Move => "Move File"@,
        TransferOperation::CreateDirectory => "Create Directory"@,
        TransferOperation::Delete => "Delete"@,
    }
}

pub open spec fn operation_destination_label(op: TransferOperation) -> Seq<char> {
    match op {
        TransferOperation::Copy | TransferOperation::Move => "To"@,
        TransferOperation::CreateDirectory => "Path"@,
        TransferOperation::Delete => "Target"@,
    }
}

pub open spec fn operation_past_tense(op: TransferOperation) -> Seq<char> {
    match op {
        TransferOperation::Copy => "copied"@,
        TransferOperation::Move => "moved"@,
        TransferOperation::CreateDirectory => "created"@,
        TransferOperation::Delete => "deleted"@,
    }
}

/// Whether the dialog of an operation shows its source.
pub open spec fn shows_source_spec(op: TransferOperation) -> bool {
    op == TransferOperation::Copy || op == TransferOperation::Move
}

/// Whether the dialog of an operation lets the user edit its destination.
pub open spec fn edits_destination_spec(op: TransferOperation) -> bool {
    op != TransferOperation::Delete
}

impl TransferOperation {
    pub fn label(self) -> (res: &'static str)
        ensures
            res@ == operation_label(self),
    {
        match self {
            TransferOperation::Copy => "copy",
            TransferOperation::Move => "move",
            TransferOperation::CreateDirectory => "create directory",
            TransferOperation::Delete => "delete",
        }
    }

    pub fn title(self) -> (res: &'static str)
        ensures
            res@ == operation_title(self),
    {
        match self {
            TransferOperation::Copy => "Copy File",
            TransferOperation::Move => "Move File",
            TransferOperation::CreateDirectory => "Create Directory",
            TransferOperation::Delete => "Delete",
        }
    }

    pub fn destination_label(self) -> (res: &'static str)
        ensures
            res@ == operation_destination_label(self),
    {
        match self {
            TransferOperation::Copy | TransferOperation::Move => "To",
            TransferOperation::CreateDirectory => "Path",
            TransferOperation::Delete => "Target",
        }
    }

    pub fn shows_source(self) -> (res: bool)
        ensures
            res == shows_source_spec(self),
    {
        match self {
            TransferOperation::Copy | TransferOperation::Move => true,
            _ => false,
        }
    }

    pub fn edits_destination(self) -> (res: bool)
        ensures
            res == edits_destination_spec(self),
    {
        match self {
            TransferOperation::Copy | TransferOperation::Move | TransferOperation::CreateDirectory => true,
            TransferOperation::Delete => false,
        }
    }

    pub fn past_tense(self) -> (res: &'static str)
        ensures
            res@ == operation_past_tense(self),
    {
        match self {
            TransferOperation::Copy => "copied",
            TransferOperation::Move => "moved",
            TransferOperation::CreateDirectory => "created",
            TransferOperation::Delete => "deleted",
        }
    }
}

/// A control of the transfer dialog.
#[derive(Debug, Clone, Copy, PartialEq, Eq, Structural)]
pub enum TransferControl {
    SourceField,
    DestinationField,
    ConfirmButton,
    CancelButton,
}

/// The control that first has the focus in an operation's dialog.
pub open spec fn initial_transfer_focus(op: TransferOperation) -> TransferControl {
    if edits_destination_spec(op) {
        TransferControl::DestinationField
    } else {
        TransferControl::ConfirmButton
    }
}

/// The transfer dialog: the operation, what it acts on, the destination
/// being edited (with a byte-offset cursor) and the focused control.
#[derive(Debug, Clone)]
pub struct TransferDialogState {
    pub operation: TransferOperation,
    pub source: LocationPath,
    pub source_label: String,
    pub source_kind: SourceKind,
    pub destination: String,
    pub cursor: usize,
    pub focus: TransferControl,
    pub hovered: Option<TransferControl>,
}

impl TransferDialogState {
    /// A dialog with the cursor at the end of `destination` and the focus
    /// on the destination field when it can be edited, else on Confirm.
    pub fn new(
        operation: TransferOperation,
        source: LocationPath,
        source_label: String,
        source_kind: SourceKind,
        destination: String,
    ) -> (res: TransferDialogState)
        ensures
            res.operation == operation,
            res.source == source,
            res.source_label == source_label,
            res.source_kind == source_kind,
            res.destination == destination,
            res.cursor == byte_len(destination@) as usize,
            res.focus == initial_transfer_focus(operation),
            res.hovered is None,
    {
        let cursor = str_len(destination.as_str());
        let focus = if operation.edits_destination() {
            TransferControl::DestinationField
        } else {
            TransferControl::ConfirmButton
        };
        TransferDialogState {
            operation,
            source,
            source_label,
            source_kind,
            destination,
            cursor,
            focus,
            hovered: None,
        }
    }
}

// ---------------------------------------------------------------------------
// File preview
// ---------------------------------------------------------------------------

/// The lines a preview shows for a file's contents: one empty line for an
/// empty file, else the file's lines.
pub open spec fn preview_lines(contents: Seq<char>) -> Seq<Seq<char>> {
    if contents.len() == 0 {
        seq![Seq::<char>::empty()]
    } else {
        text_lines(contents)
    }
}

/// The largest scroll offset of a preview of `lines` lines in a viewport
/// of `viewport` rows (a viewport has at least one row).
pub open spec fn max_preview_scroll(lines: nat, viewport: nat) -> nat {
    let rows: nat = if viewport >= 1 { viewport } else { 1 };
    if lines >= rows { (lines - rows) as nat } else { 0 }
}

/// A text file shown read-only.
#[derive(Debug, Clone)]
pub struct PreviewState {
    pub title: String,
    pub path: LocationPath,
    pub lines: Vec<String>,
    pub scroll: usize,
}

impl PreviewState {
    /// A preview of `contents`, scrolled to the top.
    pub fn new(title: String, path: LocationPath, contents: String) -> (res: PreviewState)
        ensures
            res.title == title,
            res.path == path,
            string_views(res.lines@) == preview_lines(contents@),
            res.scroll == 0,
    {
        let lines = if contents.as_str().is_empty() {
            let mut one: Vec<String> = Vec::new();
            one.push(String::new());
            proof {
                assert(string_views(one@) =~= seq![Seq::<char>::empty()]);
            }
            one
        } else {
            let l = lines_of(contents.as_str());
            proof {
                assert(string_views(l@) =~= l@.map_values(|x: String| x@));
            }
            l
        };
        PreviewState { title, path, lines, scroll: 0 }
    }

    /// Scrolls one line up, stopping at the top.
    pub fn move_up(&mut self)
        ensures
            final(self).scroll == if old(self).scroll > 0 { (old(self).scroll - 1) as usize } else { 0 },
            final(self).title == old(self).title,
            final(self).path == old(self).path,
            final(self).lines == old(self).lines,
    {
        if self.scroll > 0 {
            self.scroll = self.scroll - 1;
        }
    }

    /// Scrolls one line down, stopping where the last line reaches the
    /// bottom of a viewport of `viewport_height` rows.
    pub fn move_down(&mut self, viewport_height: usize)
        requires
            old(self).scroll < usize::MAX,
        ensures
            final(self).scroll == if old(self).scroll + 1 <= max_preview_scroll(
                old(self).lines@.len(),
                viewport_height as nat,
            ) {
                old(self).scroll + 1
            } else {
                max_preview_scroll(old(self).lines@.len(), viewport_height as nat) as int
            },
            final(self).title == old(self).title,
            final(self).path == old(self).path,
            final(self).lines == old(self).lines,
    {
        let rows: usize = if viewport_height >= 1 { viewport_height } else { 1 };
        let max_scroll: usize = if self.lines.len() >= rows { self.lines.len() - rows } else { 0 };
        let next = self.scroll + 1;
        self.scroll = if next <= max_scroll { next } else { max_scroll };
    }
}

// ---------------------------------------------------------------------------
// Panes
// ---------------------------------------------------------------------------

/// The source a pane shows.
#[derive(Debug, Clone)]
pub struct PaneSourceState {
    pub source_ref: SourceRef,
    pub kind: SourceKind,
    pub label: String,
}

/// One pane: its source, directory, listing, selection and scroll offset.
/// The connection that produced the listing is held by the caller.
#[derive(Debug)]
pub struct PaneState {
    pub source: PaneSourceState,
    pub cwd: LocationPath,
    pub entries: Vec<FileEntry>,
    pub selected: usize,
    pub scroll: usize,
    pub last_error: Option<String>,
}

/// The first position of an entry named `name`, if any.
pub open spec fn position_of_name(entries: Seq<FileEntryView>, name: Seq<char>) -> Option<int>
    decreases entries.len(),
{
    if entries.len() == 0 {
        None
    } else if entries[0].name == name {
        Some(0)
    } else {
        match position_of_name(entries.drop_first(), name) {
            Some(i) => Some(i + 1),
            None => None,
        }
    }
}

/// The selection after the listing changed: the entry of the same name
/// when there is one, else the same index.
pub open spec fn reselect(previous: Option<Seq<char>>, selected: int, entries: Seq<FileEntryView>) -> int {
    match previous {
        Some(name) => match position_of_name(entries, name) {
            Some(i) => i,
            None => selected,
        },
        None => selected,
    }
}

/// The selection kept inside a listing of `len` entries.
pub open spec fn clamped_selected(selected: int, len: nat) -> int {
    if len == 0 {
        0
    } else if selected < len - 1 {
        selected
    } else {
        len - 1
    }
}

/// The scroll offset kept at or above the selection.
pub open spec fn clamped_scroll(scroll: int, selected: int, len: nat) -> int {
    if len == 0 {
        0
    } else if scroll < clamped_selected(selected, len) {
        scroll
    } else {
        clamped_selected(selected, len)
    }
}

/// The scroll offset that keeps the selection in a viewport of `height`
/// rows.
pub open spec fn visible_scroll(selected: int, scroll: int, height: int) -> int {
    if height == 0 {
        selected
    } else if selected < scroll {
        selected
    } else if selected >= scroll + height {
        selected + 1 - height
    } else {
        scroll
    }
}

/// The title of a pane: `kind: label | directory`.
pub open spec fn pane_title(kind: SourceKind, label: Seq<char>, cwd: LocationPathView) -> Seq<char> {
    source_kind_label(kind) + ": "@ + label + " | "@ + location_text(cwd)
}

proof fn lemma_position_of_name(entries: Seq<FileEntryView>, name: Seq<char>)
    ensures
        match position_of_name(entries, name) {
            Some(i) => 0 <= i < entries.len() && entries[i].name == name
                && forall|j: int| 0 <= j < i ==> entries[j].name != name,
            None => forall|j: int| 0 <= j < entries.len() ==> entries[j].name != name,
        },
    decreases entries.len(),
{
    if entries.len() > 0 {
        lemma_position_of_name(entries.drop_first(), name);
        if entries[0].name != name {
            match position_of_name(entries.drop_first(), name) {
                Some(i) => {
                    assert forall|j: int| 0 <= j < i + 1 implies entries[j].name != name by {
                        if j > 0 {
                            assert(entries[j] == entries.drop_first()[j - 1]);
                        }
                    }
                },
                None => {
                    assert forall|j: int| 0 <= j < entries.len() implies entries[j].name != name by {
                        if j > 0 {
                            assert(entries[j] == entries.drop_first()[j - 1]);
                        }
                    }
                },
            }
        }
    }
}

impl PaneState {
    /// A pane showing `entries` of `cwd`, the first entry selected.
    pub fn new(
        source_ref: SourceRef,
        kind: SourceKind,
        label: String,
        cwd: LocationPath,
        entries: Vec<FileEntry>,
    ) -> (res: PaneState)
        ensures
            res.source.source_ref == source_ref,
            res.source.kind == kind,
            res.source.label == label,
            res.cwd == cwd,
            res.entries == entries,
            res.selected == 0,
            res.scroll == 0,
            res.last_error is None,
    {
        PaneState {
            source: PaneSourceState { source_ref, kind, label },
            cwd,
            entries,
            selected: 0,
            scroll: 0,
            last_error: None,
        }
    }

    /// `kind: label | directory`.
    pub fn title(&self) -> (res: String)
        ensures
            res@ == pane_title(self.source.kind, self.source.label@, self.cwd@),
    {
        let mut res = concat(self.source.kind.label(), ": ");
        push_all(&mut res, self.source.label.as_str());
        push_all(&mut res, " | ");
        let dir = self.cwd.display();
        push_all(&mut res, dir.as_str());
        res
    }

    /// The selected entry, if the listing has one at the selection.
    pub fn selected_entry(&self) -> (res: Option<&FileEntry>)
        ensures
            self.selected < self.entries@.len() ==> res == Some(&self.entries@[self.selected as int]),
            self.selected >= self.entries@.len() ==> res is None,
    {
        if self.selected < self.entries.len() {
            Some(&self.entries[self.selected])
        } else {
            None
        }
    }

    /// Selects the entry above, if any.
    pub fn move_up(&mut self)
        ensures
            final(self).selected == if old(self).selected > 0 { (old(self).selected - 1) as usize } else { 0 },
            final(self).scroll == old(self).scroll,
            final(self).entries == old(self).entries,
            final(self).cwd == old(self).cwd,
            final(self).source.source_ref == old(self).source.source_ref,
            final(self).source.kind == old(self).source.kind,
            final(self).source.label == old(self).source.label,
            final(self).last_error == old(self).last_error,
    {
        if self.selected > 0 {
            self.selected = self.selected - 1;
        }
    }

    /// Selects the entry below, if any.
    pub fn move_down(&mut self)
        requires
            old(self).selected < usize::MAX,
        ensures
            final(self).selected == if old(self).selected + 1 < old(self).entries@.len() {
                (old(self).selected + 1) as usize
            } else {
                old(self).selected
            },
            final(self).scroll == old(self).scroll,
            final(self).entries == old(self).entries,
            final(self).cwd == old(self).cwd,
            final(self).source.source_ref == old(self).source.source_ref,
            final(self).source.kind == old(self).source.kind,
            final(self).source.label == old(self).source.label,
            final(self).last_error == old(self).last_error,
    {
        if self.selected + 1 < self.entries.len() {
            self.selected = self.selected + 1;
        }
    }

    /// Scrolls so that the selection is inside a viewport of
    /// `viewport_height` rows.
    pub fn ensure_visible(&mut self, viewport_height: usize)
        requires
            old(self).selected < usize::MAX,
            old(self).selected >= old(self).scroll ==> old(self).scroll + viewport_height <= usize::MAX,
        ensures
            final(self).scroll == visible_scroll(
                old(self).selected as int,
                old(self).scroll as int,
                viewport_height as int,
            ),
            final(self).selected == old(self).selected,
            final(self).entries == old(self).entries,
            final(self).cwd == old(self).cwd,
            final(self).source.source_ref == old(self).source.source_ref,
            final(self).source.kind == old(self).source.kind,
            final(self).source.label == old(self).source.label,
            final(self).last_error == old(self).last_error,
    {
        if viewport_height == 0 {
            self.scroll = self.selected;
            return;
        }
        if self.selected < self.scroll {
            self.scroll = self.selected;
        } else if self.selected >= self.scroll + viewport_height {
            self.scroll = self.selected + 1 - viewport_height;
        }
    }

    /// Keeps the selection inside the listing and the scroll offset at or
    /// above the selection.
    pub fn clamp_selection(&mut self)
        ensures
            final(self).selected == clamped_selected(old(self).selected as int, old(self).entries@.len()),
            final(self).scroll == clamped_scroll(
                old(self).scroll as int,
                old(self).selected as int,
                old(self).entries@.len(),
            ),
            final(self).entries == old(self).entries,
            final(self).cwd == old(self).cwd,
            final(self).source.source_ref == old(self).source.source_ref,
            final(self).source.kind == old(self).source.kind,
            final(self).source.label == old(self).source.label,
            final(self).last_error == old(self).last_error,
    {
        if self.entries.len() == 0 {
            self.selected = 0;
            self.scroll = 0;
            return;
        }
        if self.selected >= self.entries.len() - 1 {
            self.selected = self.entries.len() - 1;
        }
        if self.scroll > self.selected {
            self.scroll = self.selected;
        }
    }

    /// Takes a new listing of the current directory: the entry selected
    /// before stays selected when the listing still has its name, and the
    /// last error is cleared.
    pub fn refresh(&mut self, entries: Vec<FileEntry>)
        ensures
            final(self).entries == entries,
            final(self).last_error is None,
            ({
                let previous = if old(self).selected < old(self).entries@.len() {
                    Some(old(self).entries@[old(self).selected as int].name@)
                } else {
                    None
                };
                let picked = reselect(previous, old(self).selected as int, entry_views(entries@));
                &&& final(self).selected == clamped_selected(picked, entries@.len())
                &&& final(self).scroll == clamped_scroll(old(self).scroll as int, picked, entries@.len())
            }),
            final(self).cwd == old(self).cwd,
            final(self).source.source_ref == old(self).source.source_ref,
            final(self).source.kind == old(self).source.kind,
            final(self).source.label == old(self).source.label,
    {
        let mut picked = self.selected;
        if self.selected < self.entries.len() {
            let ghost name = self.entries@[self.selected as int].name@;
            let ghost views = entry_views(entries@);
            let mut i: usize = 0;
            let mut found = false;
            while i < entries.len() && !found
                invariant
                    i <= entries.len(),
                    views == entry_views(entries@),
                    views.len() == entries@.len(),
                    self.selected < self.entries@.len(),
                    name == self.entries@[self.selected as int].name@,
                    !found ==> forall|j: int| 0 <= j < i ==> views[j].name != name,
                    !found ==> picked == self.selected,
                    found ==> picked < views.len() && views[picked as int].name == name
                        && forall|j: int| 0 <= j < picked ==> views[j].name != name,
                decreases entries.len() - i + (if found { 0int } else { 1int }),
            {
                proof {
                    assert(views[i as int] == entries@[i as int]@);
                }
                if str_eq(entries[i].name.as_str(), self.entries[self.selected].name.as_str()) {
                    picked = i;
                    found = true;
                } else {
                    i = i + 1;
                }
            }
            proof {
                lemma_position_of_name(views, name);
                if found {
                    match position_of_name(views, name) {
                        Some(k) => {
                            if k < picked {
                            } else if k > picked {
                            }
                        },
                        None => {},
                    }
                    assert(position_of_name(views, name) == Some(picked as int));
                } else {
                    assert(position_of_name(views, name) is None);
                }
            }
        }
        self.entries = entries;
        self.last_error = None;
        self.selected = picked;
        self.clamp_selection();
    }

    /// Moves the pane to `cwd`, showing `entries` (see [`PaneState::refresh`]).
    pub fn set_cwd(&mut self, cwd: LocationPath, entries: Vec<FileEntry>)
        ensures
            final(self).cwd == cwd,
            final(self).entries == entries,
            final(self).last_error is None,
            ({
                let previous = if old(self).selected < old(self).entries@.len() {
                    Some(old(self).entries@[old(self).selected as int].name@)
                } else {
                    None
                };
                let picked = reselect(previous, old(self).selected as int, entry_views(entries@));
                &&& final(self).selected == clamped_selected(picked, entries@.len())
                &&& final(self).scroll == clamped_scroll(old(self).scroll as int, picked, entries@.len())
            }),
            final(self).source.source_ref == old(self).source.source_ref,
            final(self).source.kind == old(self).source.kind,
            final(self).source.label == old(self).source.label,
    {
        self.cwd = cwd;
        self.refresh(entries);
    }

    /// Shows another source: its directory `cwd` listed as `entries`, the
    /// first entry selected.
    pub fn replace_source(
        &mut self,
        source_ref: SourceRef,
        kind: SourceKind,
        label: String,
        cwd: LocationPath,
        entries: Vec<FileEntry>,
    )
        ensures
            final(self).source.source_ref == source_ref,
            final(self).source.kind == kind,
            final(self).source.label == label,
            final(self).cwd == cwd,
            final(self).entries == entries,
            final(self).selected == 0,
            final(self).scroll == 0,
            final(self).last_error is None,
    {
        self.source = PaneSourceState { source_ref, kind, label };
        self.cwd = cwd;
        self.entries = entries;
        self.selected = 0;
        self.scroll = 0;
        self.last_error = None;
    }

    /// The directory that going up leads to: the parent of the current
    /// directory, when it has one distinct from it.
    pub fn parent_target(&self) -> (res: Option<LocationPath>)
        ensures
            match location_parent(self.cwd@) {
                Some(p) => if p == self.cwd@ { res is None } else { res matches Some(t) && t@ == p },
                None => res is None,
            },
    {
        match self.cwd.parent() {
            Some(parent) => {
                if parent.same_as(&self.cwd) {
                    None
                } else {
                    Some(parent)
                }
            },
            None => None,
        }
    }
}

// ---------------------------------------------------------------------------
// Source menu
// ---------------------------------------------------------------------------

/// The level the source menu shows.
#[derive(Debug, Clone, Copy, PartialEq, Eq, Structural)]
pub enum SourceMenuLevel {
    Categories,
    Items(SourceCategory),
}

/// The categories of the source menu, in the order shown.
pub open spec fn menu_categories() -> Seq<SourceCategory> {
    seq![
        SourceCategory::History,
        SourceCategory::Local,
        SourceCategory::Ftp,
        SourceCategory::Smb,
        SourceCategory::Ssh,
    ]
}

/// One source offered by the source menu, with the directory it opens at.
#[derive(Debug, Clone, PartialEq, Eq)]
pub struct SourceMenuEntry {
    pub source_ref: SourceRef,
    pub label: String,
    pub path_hint: LocationPath,
}

/// The source menu of a pane: a list of categories, then the sources of
/// the chosen category.
#[derive(Debug, Clone)]
pub struct SourceMenuState {
    pub target_pane: ActivePane,
    pub level: SourceMenuLevel,
    pub category_selected: usize,
    pub item_selected: usize,
    pub items: Vec<SourceMenuEntry>,
}

impl SourceMenuState {
    /// A menu for `target_pane` showing the categories, the first selected.
    pub fn new(target_pane: ActivePane) -> (res: SourceMenuState)
        ensures
            res.target_pane == target_pane,
            res.level == SourceMenuLevel::Categories,
            res.category_selected == 0,
            res.item_selected == 0,
            res.items@.len() == 0,
    {
        SourceMenuState {
            target_pane,
            level: SourceMenuLevel::Categories,
            category_selected: 0,
            item_selected: 0,
            items: Vec::new(),
        }
    }

    /// The categories in the order shown.
    pub fn categories() -> (res: [SourceCategory; 5])
        ensures
            res@ == menu_categories(),
    {
        let res = [
            SourceCategory::History,
            SourceCategory::Local,
            SourceCategory::Ftp,
            SourceCategory::Smb,
            SourceCategory::Ssh,
        ];
        assert(res@ =~= menu_categories());
        res
    }

    /// The category under the selection.
    pub fn selected_category(&self) -> (res: SourceCategory)
        requires
            self.category_selected < 5,
        ensures
            res == menu_categories()[self.category_selected as int],
    {
        match self.category_selected {
            0 => SourceCategory::History,
            1 => SourceCategory::Local,
            2 => SourceCategory::Ftp,
            3 => SourceCategory::Smb,
            _ => SourceCategory::Ssh,
        }
    }
}

// ---------------------------------------------------------------------------
// Add-location dialog
// ---------------------------------------------------------------------------

/// The kind of location the add-location dialog creates.
#[derive(Debug, Clone, Copy, PartialEq, Eq, Structural)]
pub enum AddLocationKind {
    Local,
    Ftp,
    Smb,
    Ssh,
}

pub open spec fn location_kind_label(kind: AddLocationKind) -> Seq<char> {
    match kind {
        AddLocationKind::Local => "Local"@,
        AddLocationKind::Ftp => "FTP"@,
        AddLocationKind::Smb => "SMB"@,
        AddLocationKind::Ssh => "SSH"@,
    }
}

pub open spec fn location_kind_target_label(kind: AddLocationKind) -> Seq<char> {
    match kind {
        AddLocationKind::Local => "Path"@,
        _ => "Target"@,
    }
}

pub open spec fn location_kind_target_example(kind: AddLocationKind) -> Seq<char> {
    match kind {
        AddLocationKind::Local => "/srv/data"@,
        AddLocationKind::Ftp => "ftp://alice@example.com:21/incoming"@,
        AddLocationKind::Smb => "smb://alice@nas/media/shows?workgroup=WORK"@,
        AddLocationKind::Ssh => "ssh://deploy@example.com:22/var/www"@,
    }
}

/// Whether a kind of location needs a password.
pub open spec fn uses_secret_spec(kind: AddLocationKind) -> bool {
    kind != AddLocationKind::Local
}

/// The kinds in the order the kind field cycles through them.
pub open spec fn kind_position(kind: AddLocationKind) -> int {
    match kind {
        AddLocationKind::Local => 0,
        AddLocationKind::Ftp => 1,
        AddLocationKind::Smb => 2,
        AddLocationKind::Ssh => 3,
    }
}

impl AddLocationKind {
    pub fn label(self) -> (res: &'static str)
        ensures
            res@ == location_kind_label(self),
    {
        match self {
            AddLocationKind::Local => "Local",
            AddLocationKind::Ftp => "FTP",
            AddLocationKind::Smb => "SMB",
            AddLocationKind::Ssh => "SSH",
        }
    }

    pub fn target_label(self) -> (res: &'static str)
        ensures
            res@ == location_kind_target_label(self),
    {
        match self {
            AddLocationKind::Local => "Path",
            AddLocationKind::Ftp | AddLocationKind::Smb | AddLocationKind::Ssh => "Target",
        }
    }

    pub fn target_example(self) -> (res: &'static str)
        ensures
            res@ == location_kind_target_example(self),
    {
        match self {
            AddLocationKind::Local => "/srv/data",
            AddLocationKind::Ftp => "ftp://alice@example.com:21/incoming",
            AddLocationKind::Smb => "smb://alice@nas/media/shows?workgroup=WORK",
            AddLocationKind::Ssh => "ssh://deploy@example.com:22/var/www",
        }
    }

    pub fn uses_secret(self) -> (res: bool)
        ensures
            res == uses_secret_spec(self),
    {
        match self {
            AddLocationKind::Local => false,
            _ => true,
        }
    }

    /// The kind before this one, cycling from Local back to SSH.
    pub fn previous(self) -> (res: AddLocationKind)
        ensures
            kind_position(res) == (kind_position(self) + 3) % 4,
    {
        match self {
            AddLocationKind::Local => AddLocationKind::Ssh,
            AddLocationKind::Ftp => AddLocationKind::Local,
            AddLocationKind::Smb => AddLocationKind::Ftp,
            AddLocationKind::Ssh => AddLocationKind::Smb,
        }
    }

    /// The kind after this one, cycling from SSH back to Local.
    pub fn next(self) -> (res: AddLocationKind)
        ensures
            kind_position(res) == (kind_position(self) + 1) % 4,
    {
        match self {
            AddLocationKind::Local => AddLocationKind::Ftp,
            AddLocationKind::Ftp => AddLocationKind::Smb,
            AddLocationKind::Smb => AddLocationKind::Ssh,
            AddLocationKind::Ssh => AddLocationKind::Local,
        }
    }
}

/// Each kind has its own position, so the position determines the kind.
pub proof fn lemma_kind_position_injective(a: AddLocationKind, b: AddLocationKind)
    ensures
        kind_position(a) == kind_position(b) ==> a == b,
        0 <= kind_position(a) < 4,
{
}

/// Stepping the kind field back and then forward (or forward and then
/// back) returns to the same kind.
pub proof fn law_kind_cycle_round_trip(kind: AddLocationKind, back: AddLocationKind, forward: AddLocationKind)
    ensures
        kind_position(back) == (kind_position(kind) + 3) % 4
            && kind_position(forward) == (kind_position(back) + 1) % 4 ==> forward == kind,
        kind_position(forward) == (kind_position(kind) + 1) % 4
            && kind_position(back) == (kind_position(forward) + 3) % 4 ==> back == kind,
{
    lemma_kind_position_injective(forward, kind);
    lemma_kind_position_injective(back, kind);
}

/// A control of the add-location dialog.
#[derive(Debug, Clone, Copy, PartialEq, Eq, Structural)]
pub enum AddLocationControl {
    KindField,
    LabelField,
    TargetField,
    SecretField,
    ConfirmButton,
    CancelButton,
}

/// The add-location dialog: the kind, three text fields with byte-offset
/// cursors, and the focused control.
#[derive(Debug, Clone)]
pub struct AddLocationDialogState {
    pub kind: AddLocationKind,
    pub label: String,
    pub label_cursor: usize,
    pub target: String,
    pub target_cursor: usize,
    pub secret: String,
    pub secret_cursor: usize,
    pub focus: AddLocationControl,
    pub hovered: Option<AddLocationControl>,
}

impl AddLocationDialogState {
    /// An empty dialog for a local location, the kind field focused.
    pub fn new() -> (res: AddLocationDialogState)
        ensures
            res.kind == AddLocationKind::Local,
            res.label@.len() == 0,
            res.label_cursor == 0,
            res.target@.len() == 0,
            res.target_cursor == 0,
            res.secret@.len() == 0,
            res.secret_cursor == 0,
            res.focus == AddLocationControl::KindField,
            res.hovered is None,
    {
        AddLocationDialogState {
            kind: AddLocationKind::Local,
            label: String::new(),
            label_cursor: 0,
            target: String::new(),
            target_cursor: 0,
            secret: String::new(),
            secret_cursor: 0,
            focus: AddLocationControl::KindField,
            hovered: None,
        }
    }
}

// ---------------------------------------------------------------------------
// The whole application
// ---------------------------------------------------------------------------

/// The status line shown when nothing else is to be said.
pub open spec fn default_status_spec(trigger: ConfigurableKey) -> Seq<char> {
    "Tab switch pane | F1/F2 source | F4 add location | Enter open | Backspace up | "@
        + key_label_spec(trigger) + " command | q quit"@
}

/// The help line naming the main keys, with the configured command key.
pub fn default_status_text(config: &Config) -> (res: String)
    ensures
        res@ == default_status_spec(config.key_bindings.enter_command_mode),
{
    let mut res = owned(
        "Tab switch pane | F1/F2 source | F4 add location | Enter open | Backspace up | ",
    );
    let key = config.key_bindings.enter_command_mode.label();
    push_all(&mut res, key.as_str());
    push_all(&mut res, " command | q quit");
    res
}

/// The status line at startup: the help line, or the configuration
/// warnings joined with ` | ` when there are any.
pub open spec fn startup_status(trigger: ConfigurableKey, warnings: Seq<Seq<char>>) -> Seq<char> {
    if warnings.len() == 0 {
        default_status_spec(trigger)
    } else {
        joined(warnings, " | "@)
    }
}

/// Everything the screen shows and the keys act on.
#[derive(Debug)]
pub struct AppState {
    pub left: PaneState,
    pub right: PaneState,
    pub active_pane: ActivePane,
    pub mode: InputMode,
    pub command: CommandState,
    pub transfer: Option<TransferDialogState>,
    pub preview: Option<PreviewState>,
    pub source_menu: Option<SourceMenuState>,
    pub add_location: Option<AddLocationDialogState>,
    pub footer_hovered: Option<usize>,
    pub status: StatusMessage,
    pub should_quit: bool,
    pub config: Config,
}

/// The other pane.
pub open spec fn other_pane(pane: ActivePane) -> ActivePane {
    match pane {
        ActivePane::Left => ActivePane::Right,
        ActivePane::Right => ActivePane::Left,
    }
}

impl AppState {
    /// The pane selected by `pane`.
    pub open spec fn pane_spec(&self, pane: ActivePane) -> PaneState {
        match pane {
            ActivePane::Left => self.left,
            ActivePane::Right => self.right,
        }
    }

    /// The state at startup: the left pane active, normal mode, no dialog,
    /// and the startup status line.
    pub fn new(config: Config, left: PaneState, right: PaneState) -> (res: AppState)
        ensures
            res.left == left,
            res.right == right,
            res.active_pane == ActivePane::Left,
            res.mode == InputMode::Normal,
            res.command.buffer@.len() == 0,
            res.command.cursor == 0,
            res.command.trigger_key == config.key_bindings.enter_command_mode,
            res.transfer is None,
            res.preview is None,
            res.source_menu is None,
            res.add_location is None,
            res.footer_hovered is None,
            res.status.text@ == startup_status(
                config.key_bindings.enter_command_mode,
                string_views(config.startup_warnings@),
            ),
            !res.should_quit,
            res.config == config,
    {
        let status = if config.startup_warnings.len() == 0 {
            let text = default_status_text(&config);
            StatusMessage::info(text.as_str())
        } else {
            let text = join_strings(&config.startup_warnings, " | ");
            proof {
                assert(string_views(config.startup_warnings@) =~= config.startup_warnings@.map_values(
                    |p: String| p@,
                ));
            }
            StatusMessage::error(text.as_str())
        };
        let command = CommandState::new(config.key_bindings.enter_command_mode);
        AppState {
            left,
            right,
            active_pane: ActivePane::Left,
            mode: InputMode::Normal,
            command,
            transfer: None,
            preview: None,
            source_menu: None,
            add_location: None,
            footer_hovered: None,
            status,
            should_quit: false,
            config,
        }
    }

    /// The active pane.
    pub fn active_pane(&self) -> (res: &PaneState)
        ensures
            *res == self.pane_spec(self.active_pane),
    {
        match self.active_pane {
            ActivePane::Left => &self.left,
            ActivePane::Right => &self.right,
        }
    }

    /// The pane that is not active.
    pub fn inactive_pane(&self) -> (res: &PaneState)
        ensures
            *res == self.pane_spec(other_pane(self.active_pane)),
    {
        match self.active_pane {
            ActivePane::Left => &self.right,
            ActivePane::Right => &self.left,
        }
    }

    /// The pane `pane` names.
    pub fn pane(&self, pane: ActivePane) -> (res: &PaneState)
        ensures
            *res == self.pane_spec(pane),
    {
        match pane {
            ActivePane::Left => &self.left,
            ActivePane::Right => &self.right,
        }
    }

    /// The pane `pane` names, to change it.
    pub fn pane_mut(&mut self, pane: ActivePane) -> (res: &mut PaneState)
        ensures
            *res == old(self).pane_spec(pane),
            pane == ActivePane::Left ==> *final(self) == (AppState { left: *final(res), ..*old(self) }),
            pane == ActivePane::Right ==> *final(self) == (AppState { right: *final(res), ..*old(self) }),
    {
        match pane {
            ActivePane::Left => &mut self.left,
            ActivePane::Right => &mut self.right,
        }
    }

    /// The active pane, to change it.
    pub fn active_pane_mut(&mut self) -> (res: &mut PaneState)
        ensures
            *res == old(self).pane_spec(old(self).active_pane),
            old(self).active_pane == ActivePane::Left ==> *final(self) == (AppState { left: *final(res), ..*old(self) }),
            old(self).active_pane == ActivePane::Right ==> *final(self) == (AppState { right: *final(res), ..*old(self) }),
    {
        match self.active_pane {
            ActivePane::Left => &mut self.left,
            ActivePane::Right => &mut self.right,
        }
    }

    /// The pane that is not active, to change it.
    pub fn inactive_pane_mut(&mut self) -> (res: &mut PaneState)
        ensures
            *res == old(self).pane_spec(other_pane(old(self).active_pane)),
            old(self).active_pane == ActivePane::Right ==> *final(self) == (AppState { left: *final(res), ..*old(self) }),
            old(self).active_pane == ActivePane::Left ==> *final(self) == (AppState { right: *final(res), ..*old(self) }),
    {
        match self.active_pane {
            ActivePane::Left => &mut self.right,
            ActivePane::Right => &mut self.left,
        }
    }

    /// Replaces the status line.
    pub fn set_status(&mut self, status: StatusMessage)
        ensures
            *final(self) == (AppState { status, ..*old(self) }),
    {
        self.status = status;
    }
}

} // verus!
