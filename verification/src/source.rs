//! Pane sources (local directories and saved FTP / SMB / SSH profiles),
//! locations inside them, and directory entries.
use vstd::prelude::*;
use vstd::multiset::Multiset;

use crate::order::{compare_strs, seq_lt, lemma_seq_lt_irreflexive, lemma_seq_lt_transitive,
    lemma_seq_lt_total, lemma_seq_lt_asymmetric};
use crate::remote_path::{normalize_remote, remote_join, remote_parent, normalize_remote_spec,
    remote_join_spec, remote_parent_spec, remote_file_name_spec, trim_end_char, after_last};
use crate::text::{chars_of, concat, opt_view, owned, starts_with_char, string_from_chars,
    lowercase_of, to_lower};

verus! {

// ---------------------------------------------------------------------------
// Kinds and categories
// ---------------------------------------------------------------------------

/// The backend a pane source uses.
#[derive(Debug, Clone, Copy, PartialEq, Eq, Hash, Structural)]
pub enum SourceKind {
    Local,
    Ftp,
    Smb,
    Ssh,
}

pub open spec fn source_kind_label(kind: SourceKind) -> Seq<char> {
    match kind {
        SourceKind::Local => "local"@,
        SourceKind::Ftp => "ftp"@,
        SourceKind::Smb => "smb"@,
        SourceKind::Ssh => "ssh"@,
    }
}

impl SourceKind {
    /// The lower-case name of the backend.
    pub fn label(self) -> (res: &'static str)
        ensures
            res@ == source_kind_label(self),
    {
        match self {
            SourceKind::Local => "local",
            SourceKind::Ftp => "ftp",
            SourceKind::Smb => "smb",
            SourceKind::Ssh => "ssh",
        }
    }
}

/// A group of entries in the source menu.
#[derive(Debug, Clone, Copy, PartialEq, Eq, Structural)]
pub enum SourceCategory {
    History,
    Local,
    Ftp,
    Smb,
    Ssh,
}

pub open spec fn source_category_title(category: SourceCategory) -> Seq<char> {
    match category {
        SourceCategory::History => "History"@,
        SourceCategory::Local => "Saved Local"@,
        SourceCategory::Ftp => "Saved FTP"@,
        SourceCategory::Smb => "Saved SMB"@,
        SourceCategory::Ssh => "Saved SSH"@,
    }
}

impl SourceCategory {
    /// The heading shown for the category.
    pub fn title(self) -> (res: &'static str)
        ensures
            res@ == source_category_title(self),
    {
        match self {
            SourceCategory::History => "History",
            SourceCategory::Local => "Saved Local",
            SourceCategory::Ftp => "Saved FTP",
            SourceCategory::Smb => "Saved SMB",
            SourceCategory::Ssh => "Saved SSH",
        }
    }
}

// ---------------------------------------------------------------------------
// Source references
// ---------------------------------------------------------------------------

/// What a pane shows: an ad-hoc local directory or a saved profile.
#[derive(Debug, Clone, PartialEq, Eq, Hash)]
pub enum SourceRef {
    InlineLocal { path: String, label: String },
    SavedLocal { id: String },
    SavedFtp { id: String },
    SavedSmb { id: String },
    SavedSsh { id: String },
}

/// The mathematical form of a [`SourceRef`].
pub enum SourceRefView {
    InlineLocal { path: Seq<char>, label: Seq<char> },
    SavedLocal { id: Seq<char> },
    SavedFtp { id: Seq<char> },
    SavedSmb { id: Seq<char> },
    SavedSsh { id: Seq<char> },
}

impl View for SourceRef {
    type V = SourceRefView;

    open spec fn view(&self) -> SourceRefView {
        match self {
            SourceRef::InlineLocal { path, label } => SourceRefView::InlineLocal {
                path: path@,
                label: label@,
            },
            SourceRef::SavedLocal { id } => SourceRefView::SavedLocal { id: id@ },
            SourceRef::SavedFtp { id } => SourceRefView::SavedFtp { id: id@ },
            SourceRef::SavedSmb { id } => SourceRefView::SavedSmb { id: id@ },
            SourceRef::SavedSsh { id } => SourceRefView::SavedSsh { id: id@ },
        }
    }
}

/// The key under which a source is remembered: `inline:<path>` or
/// `<kind>:<id>`.
pub open spec fn stable_key_spec(source: SourceRefView) -> Seq<char> {
    match source {
        SourceRefView::InlineLocal { path, .. } => "inline:"@ + path,
        SourceRefView::SavedLocal { id } => "local:"@ + id,
        SourceRefView::SavedFtp { id } => "ftp:"@ + id,
        SourceRefView::SavedSmb { id } => "smb:"@ + id,
        SourceRefView::SavedSsh { id } => "ssh:"@ + id,
    }
}

pub open spec fn source_ref_kind(source: SourceRefView) -> SourceKind {
    match source {
        SourceRefView::InlineLocal { .. } => SourceKind::Local,
        SourceRefView::SavedLocal { .. } => SourceKind::Local,
        SourceRefView::SavedFtp { .. } => SourceKind::Ftp,
        SourceRefView::SavedSmb { .. } => SourceKind::Smb,
        SourceRefView::SavedSsh { .. } => SourceKind::Ssh,
    }
}

impl SourceRef {
    /// The key under which this source is remembered in history.
    pub fn stable_key(&self) -> (res: String)
        ensures
            res@ == stable_key_spec(self@),
    {
        match self {
            SourceRef::InlineLocal { path, .. } => concat("inline:", path.as_str()),
            SourceRef::SavedLocal { id } => concat("local:", id.as_str()),
            SourceRef::SavedFtp { id } => concat("ftp:", id.as_str()),
            SourceRef::SavedSmb { id } => concat("smb:", id.as_str()),
            SourceRef::SavedSsh { id } => concat("ssh:", id.as_str()),
        }
    }

    /// The backend this source uses.
    pub fn kind(&self) -> (res: SourceKind)
        ensures
            res == source_ref_kind(self@),
    {
        match self {
            SourceRef::InlineLocal { .. } | SourceRef::SavedLocal { .. } => SourceKind::Local,
            SourceRef::SavedFtp { .. } => SourceKind::Ftp,
            SourceRef::SavedSmb { .. } => SourceKind::Smb,
            SourceRef::SavedSsh { .. } => SourceKind::Ssh,
        }
    }

    /// A copy of this reference.
    pub fn duplicate(&self) -> (res: SourceRef)
        ensures
            res@ == self@,
    {
        match self {
            SourceRef::InlineLocal { path, label } => SourceRef::InlineLocal {
                path: path.clone(),
                label: label.clone(),
            },
            SourceRef::SavedLocal { id } => SourceRef::SavedLocal { id: id.clone() },
            SourceRef::SavedFtp { id } => SourceRef::SavedFtp { id: id.clone() },
            SourceRef::SavedSmb { id } => SourceRef::SavedSmb { id: id.clone() },
            SourceRef::SavedSsh { id } => SourceRef::SavedSsh { id: id.clone() },
        }
    }
}

// ---------------------------------------------------------------------------
// Local paths (through std::path)
// ---------------------------------------------------------------------------

/// What `std::path::Path::is_absolute` answers for a path.
pub uninterp spec fn local_is_absolute_of(path: Seq<char>) -> bool;

/// What `std::path::Path::join` builds (as text) from a base and a child.
pub uninterp spec fn local_join_of(base: Seq<char>, child: Seq<char>) -> Seq<char>;

/// What `std::path::Path::parent` answers (as text) for a path.
pub uninterp spec fn local_parent_of(path: Seq<char>) -> Option<Seq<char>>;

/// What `std::path::Path::file_name` answers (as text) for a path.
pub uninterp spec fn local_file_name_of(path: Seq<char>) -> Option<Seq<char>>;

/// `std::path::Path::is_absolute`; the platform's rule (on Unix: the path
/// starts with `/`) is not restated here, only named.
#[verifier::external_body]
pub(crate) fn local_is_absolute(path: &str) -> (res: bool)
    ensures
        res == local_is_absolute_of(path@),
{
    std::path::Path::new(path).is_absolute()
}

/// `std::path::Path::join`, read back as text; named, not restated.
#[verifier::external_body]
pub(crate) fn local_join(base: &str, child: &str) -> (res: String)
    ensures
        res@ == local_join_of(base@, child@),
{
    std::path::Path::new(base).join(child).to_string_lossy().into_owned()
}

/// `std::path::Path::parent`, read back as text; named, not restated.
#[verifier::external_body]
fn local_parent(path: &str) -> (res: Option<String>)
    ensures
        opt_view(res) == local_parent_of(path@),
{
    match std::path::Path::new(path).parent() {
        Some(parent) => Some(parent.to_string_lossy().into_owned()),
        None => None,
    }
}

/// `std::path::Path::file_name`, read back as text; named, not restated.
#[verifier::external_body]
pub(crate) fn local_file_name(path: &str) -> (res: Option<String>)
    ensures
        opt_view(res) == local_file_name_of(path@),
{
    match std::path::Path::new(path).file_name() {
        Some(name) => Some(name.to_string_lossy().into_owned()),
        None => None,
    }
}

// ---------------------------------------------------------------------------
// Locations
// ---------------------------------------------------------------------------

/// A location inside a source: a local path or a normalized remote path.
#[derive(Debug, Clone, PartialEq, Eq, Hash)]
pub enum LocationPath {
    Local(String),
    Remote(String),
}

/// The mathematical form of a [`LocationPath`].
pub enum LocationPathView {
    Local(Seq<char>),
    Remote(Seq<char>),
}

impl View for LocationPath {
    type V = LocationPathView;

    open spec fn view(&self) -> LocationPathView {
        match self {
            LocationPath::Local(p) => LocationPathView::Local(p@),
            LocationPath::Remote(p) => LocationPathView::Remote(p@),
        }
    }
}

/// The text of a location.
pub open spec fn location_text(path: LocationPathView) -> Seq<char> {
    match path {
        LocationPathView::Local(p) => p,
        LocationPathView::Remote(p) => p,
    }
}

pub open spec fn location_file_name(path: LocationPathView) -> Option<Seq<char>> {
    match path {
        LocationPathView::Local(p) => local_file_name_of(p),
        LocationPathView::Remote(p) => remote_file_name_spec(p),
    }
}

pub open spec fn location_parent(path: LocationPathView) -> Option<LocationPathView> {
    match path {
        LocationPathView::Local(p) => match local_parent_of(p) {
            Some(q) => Some(LocationPathView::Local(q)),
            None => None,
        },
        LocationPathView::Remote(p) => match remote_parent_spec(p) {
            Some(q) => Some(LocationPathView::Remote(q)),
            None => None,
        },
    }
}

pub open spec fn location_join_child(path: LocationPathView, child: Seq<char>) -> LocationPathView {
    match path {
        LocationPathView::Local(p) => LocationPathView::Local(local_join_of(p, child)),
        LocationPathView::Remote(p) => LocationPathView::Remote(remote_join_spec(p, child)),
    }
}

/// A remote location in normal form other than the root is its parent
/// joined with its file name; joining a child keeps a location local or
/// remote.
pub proof fn law_location_is_parent_and_name(path: Seq<char>, other: LocationPathView, child: Seq<char>)
    requires
        crate::remote_path::normalize_remote_spec(path) == path,
        path != seq!['/'],
    ensures
        location_parent(LocationPathView::Remote(path)) matches Some(parent)
            && location_file_name(LocationPathView::Remote(path)) matches Some(name)
            && location_join_child(parent, name) == LocationPathView::Remote(path),
        (location_join_child(other, child) is Local) == (other is Local),
{
    crate::remote_path::law_join_of_parent_and_name(path);
}

pub open spec fn starts_with_slash(s: Seq<char>) -> bool {
    s.len() > 0 && s[0] == '/'
}

pub open spec fn is_absolute_input_spec(kind: SourceKind, raw: Seq<char>) -> bool {
    match kind {
        SourceKind::Local => local_is_absolute_of(raw),
        _ => starts_with_slash(raw),
    }
}

/// Where typed input `raw` leads for a source of `kind` whose current
/// directory is `cwd`: absolute input stands for itself, relative input is
/// taken from `cwd` when `cwd` belongs to the same backend family.
/// A local location typed as `raw` in a pane showing `cwd`, given whether
/// `raw` is absolute and `joined`, `raw` joined onto a local `cwd`: `raw`
/// itself when absolute, else `joined` in a local pane and `raw` in a
/// remote one.
pub open spec fn local_input_spec(cwd: LocationPathView, raw: Seq<char>, absolute: bool, joined: Seq<char>) -> LocationPathView {
    if absolute {
        LocationPathView::Local(raw)
    } else {
        match cwd {
            LocationPathView::Local(_) => LocationPathView::Local(joined),
            LocationPathView::Remote(_) => LocationPathView::Local(raw),
        }
    }
}

pub open spec fn from_input_spec(kind: SourceKind, cwd: LocationPathView, raw: Seq<char>) -> LocationPathView {
    match kind {
        SourceKind::Local => if local_is_absolute_of(raw) {
            LocationPathView::Local(raw)
        } else {
            match cwd {
                LocationPathView::Local(c) => LocationPathView::Local(local_join_of(c, raw)),
                LocationPathView::Remote(_) => LocationPathView::Local(raw),
            }
        },
        _ => if starts_with_slash(raw) {
            LocationPathView::Remote(normalize_remote_spec(raw))
        } else {
            match cwd {
                LocationPathView::Remote(c) => LocationPathView::Remote(remote_join_spec(c, raw)),
                LocationPathView::Local(_) => LocationPathView::Remote(normalize_remote_spec(raw)),
            }
        },
    }
}

/// The last component of a remote path as written.
fn remote_file_name(path: &str) -> (res: Option<String>)
    ensures
        opt_view(res) == remote_file_name_spec(path@),
{
    let chars = chars_of(path);
    let mut end = chars.len();
    proof {
        assert(chars@.take(end as int) =~= chars@);
    }
    while end > 0 && chars[end - 1] == '/'
        invariant
            end <= chars.len(),
            chars@ == path@,
            trim_end_char(path@, '/') == trim_end_char(chars@.take(end as int), '/'),
        decreases end,
    {
        proof {
            assert(chars@.take(end as int).drop_last() =~= chars@.take(end - 1));
        }
        end = end - 1;
    }
    let ghost t = chars@.take(end as int);
    assert(trim_end_char(path@, '/') == t);
    if end == 0 || (end == 1 && chars[0] == '/') {
        proof {
            if end == 1 {
                assert(t =~= seq!['/']);
            }
        }
        return None;
    }
    proof {
        if t == seq!['/'] {
            assert(t.len() == 1 && t[0] == '/');
        }
    }
    let mut start = end;
    proof {
        assert(t.subrange(start as int, end as int) =~= Seq::<char>::empty());
        assert(t.take(start as int) =~= t);
        assert(after_last(t, '/') + Seq::<char>::empty() =~= after_last(t, '/'));
    }
    while start > 0 && chars[start - 1] != '/'
        invariant
            start <= end <= chars.len(),
            t == chars@.take(end as int),
            after_last(t, '/') == after_last(t.take(start as int), '/') + t.subrange(
                start as int,
                end as int,
            ),
        decreases start,
    {
        proof {
            let u = t.take(start as int);
            assert(u.drop_last() =~= t.take(start - 1));
            assert(u.last() == chars@[start - 1]);
            assert(t.subrange(start - 1, end as int) =~= seq![u.last()] + t.subrange(
                start as int,
                end as int,
            ));
            assert(after_last(u, '/') == after_last(u.drop_last(), '/').push(u.last()));
            assert(after_last(u.drop_last(), '/').push(u.last()) + t.subrange(
                start as int,
                end as int,
            ) =~= after_last(u.drop_last(), '/') + t.subrange(start - 1, end as int));
        }
        start = start - 1;
    }
    proof {
        if start > 0 {
            let u = t.take(start as int);
            assert(u.last() == '/');
            assert(after_last(u, '/') == Seq::<char>::empty());
        } else {
            assert(after_last(t.take(0), '/') == Seq::<char>::empty());
        }
    }
    let mut name: Vec<char> = Vec::new();
    let mut i = start;
    while i < end
        invariant
            start <= i <= end <= chars.len(),
            t == chars@.take(end as int),
            name@ == t.subrange(start as int, i as int),
        decreases end - i,
    {
        name.push(chars[i]);
        proof {
            assert(t.subrange(start as int, i + 1) =~= t.subrange(start as int, i as int).push(
                chars@[i as int],
            ));
        }
        i = i + 1;
    }
    proof {
        assert(name@ =~= after_last(t, '/'));
    }
    Some(string_from_chars(&name))
}

impl LocationPath {
    /// The text of the location.
    pub fn display(&self) -> (res: String)
        ensures
            res@ == location_text(self@),
    {
        match self {
            LocationPath::Local(path) => path.clone(),
            LocationPath::Remote(path) => path.clone(),
        }
    }

    /// The last component of the location, when it has one.
    pub fn file_name(&self) -> (res: Option<String>)
        ensures
            opt_view(res) == location_file_name(self@),
    {
        match self {
            LocationPath::Local(path) => local_file_name(path.as_str()),
            LocationPath::Remote(path) => remote_file_name(path.as_str()),
        }
    }

    /// The directory that contains the location, when there is one.
    pub fn parent(&self) -> (res: Option<LocationPath>)
        ensures
            match res {
                Some(p) => location_parent(self@) == Some(p@),
                None => location_parent(self@) is None,
            },
    {
        match self {
            LocationPath::Local(path) => match local_parent(path.as_str()) {
                Some(parent) => Some(LocationPath::Local(parent)),
                None => None,
            },
            LocationPath::Remote(path) => match remote_parent(path.as_str()) {
                Some(parent) => Some(LocationPath::Remote(parent)),
                None => None,
            },
        }
    }

    /// The location of `child` inside this directory.
    pub fn join_child(&self, child: &str) -> (res: LocationPath)
        ensures
            res@ == location_join_child(self@, child@),
    {
        match self {
            LocationPath::Local(path) => LocationPath::Local(local_join(path.as_str(), child)),
            LocationPath::Remote(path) => LocationPath::Remote(remote_join(path.as_str(), child)),
        }
    }

    /// Whether typed input is absolute for a source of the given kind.
    pub fn is_absolute_input_for_kind(kind: SourceKind, raw: &str) -> (res: bool)
        ensures
            res == is_absolute_input_spec(kind, raw@),
    {
        match kind {
            SourceKind::Local => local_is_absolute(raw),
            SourceKind::Ftp | SourceKind::Smb | SourceKind::Ssh => starts_with_char(raw, '/'),
        }
    }

    /// A local location typed as `raw` while the pane shows `cwd`, given
    /// whether `raw` is absolute and `joined`, `raw` joined onto a local
    /// `cwd` (see [`local_input_spec`]).
    pub fn local_input(cwd: &LocationPath, raw: &str, absolute: bool, joined: String) -> (res: LocationPath)
        ensures
            res@ == local_input_spec(cwd@, raw@, absolute, joined@),
    {
        if absolute {
            LocationPath::Local(owned(raw))
        } else {
            match cwd {
                LocationPath::Local(_) => LocationPath::Local(joined),
                LocationPath::Remote(_) => LocationPath::Local(owned(raw)),
            }
        }
    }

    /// Resolves typed input against the current directory of a source.
    pub fn from_input(kind: SourceKind, cwd: &LocationPath, raw: &str) -> (res: LocationPath)
        ensures
            res@ == from_input_spec(kind, cwd@, raw@),
    {
        match kind {
            SourceKind::Local => {
                let absolute = local_is_absolute(raw);
                let joined = match cwd {
                    LocationPath::Local(c) => if absolute { String::new() } else { local_join(c.as_str(), raw) },
                    LocationPath::Remote(_) => String::new(),
                };
                Self::local_input(cwd, raw, absolute, joined)
            },
            SourceKind::Ftp | SourceKind::Smb | SourceKind::Ssh => {
                if starts_with_char(raw, '/') {
                    LocationPath::Remote(normalize_remote(raw))
                } else {
                    match cwd {
                        LocationPath::Remote(cwd) => LocationPath::Remote(remote_join(cwd.as_str(), raw)),
                        LocationPath::Local(_) => LocationPath::Remote(normalize_remote(raw)),
                    }
                }
            },
        }
    }

    /// The local path, for a local location.
    pub fn as_local_path(&self) -> (res: Option<&str>)
        ensures
            match self@ {
                LocationPathView::Local(p) => res is Some && res->0@ == p,
                LocationPathView::Remote(_) => res is None,
            },
    {
        match self {
            LocationPath::Local(path) => Some(path.as_str()),
            LocationPath::Remote(_) => None,
        }
    }

    /// The remote path, for a remote location.
    pub fn as_remote_path(&self) -> (res: Option<&str>)
        ensures
            match self@ {
                LocationPathView::Remote(p) => res is Some && res->0@ == p,
                LocationPathView::Local(_) => res is None,
            },
    {
        match self {
            LocationPath::Remote(path) => Some(path.as_str()),
            LocationPath::Local(_) => None,
        }
    }

    /// A copy of this location.
    pub fn duplicate(&self) -> (res: LocationPath)
        ensures
            res@ == self@,
    {
        match self {
            LocationPath::Local(path) => LocationPath::Local(path.clone()),
            LocationPath::Remote(path) => LocationPath::Remote(path.clone()),
        }
    }

    /// Whether two locations are the same.
    pub fn same_as(&self, other: &LocationPath) -> (res: bool)
        ensures
            res == (self@ == other@),
    {
        match (self, other) {
            (LocationPath::Local(a), LocationPath::Local(b)) => crate::text::str_eq(a.as_str(), b.as_str()),
            (LocationPath::Remote(a), LocationPath::Remote(b)) => crate::text::str_eq(a.as_str(), b.as_str()),
            _ => false,
        }
    }
}

} // verus!

verus! {

// ---------------------------------------------------------------------------
// Directory entries
// ---------------------------------------------------------------------------

/// The type of a directory entry.
#[derive(Debug, Clone, Copy, PartialEq, Eq, Structural)]
pub enum EntryKind {
    Directory,
    File,
    Symlink,
    Other,
}

impl EntryKind {
    pub fn is_directory(self) -> (res: bool)
        ensures
            res == (self == EntryKind::Directory),
    {
        match self {
            EntryKind::Directory => true,
            _ => false,
        }
    }

    pub fn is_file(self) -> (res: bool)
        ensures
            res == (self == EntryKind::File),
    {
        match self {
            EntryKind::File => true,
            _ => false,
        }
    }
}

/// One entry of a directory listing.
#[derive(Debug, Clone, PartialEq, Eq)]
pub struct FileEntry {
    pub name: String,
    pub path: LocationPath,
    pub kind: EntryKind,
    pub is_hidden: bool,
}

/// The mathematical form of a [`FileEntry`].
pub struct FileEntryView {
    pub name: Seq<char>,
    pub path: LocationPathView,
    pub kind: EntryKind,
    pub is_hidden: bool,
}

impl View for FileEntry {
    type V = FileEntryView;

    open spec fn view(&self) -> FileEntryView {
        FileEntryView { name: self.name@, path: self.path@, kind: self.kind, is_hidden: self.is_hidden }
    }
}

impl FileEntry {
    /// The name shown for the entry.
    pub fn display_name(&self) -> (res: String)
        ensures
            res@ == self.name@,
    {
        self.name.clone()
    }

    /// A copy of this entry.
    pub fn duplicate(&self) -> (res: FileEntry)
        ensures
            res@ == self@,
    {
        FileEntry {
            name: self.name.clone(),
            path: self.path.duplicate(),
            kind: self.kind,
            is_hidden: self.is_hidden,
        }
    }
}

/// The listing order: directories first, then by lower-cased name, then by
/// name.  `entry_lt(a, b)` holds when `a` is listed strictly before `b`.
pub open spec fn entry_lt(a: FileEntryView, b: FileEntryView) -> bool {
    entry_lt_given(a, b, lowercase_of(a.name), lowercase_of(b.name))
}

/// The listing order, given the lower-cased names `la` of `a` and `lb` of
/// `b`.
pub open spec fn entry_lt_given(a: FileEntryView, b: FileEntryView, la: Seq<char>, lb: Seq<char>) -> bool {
    let da = a.kind == EntryKind::Directory;
    let db = b.kind == EntryKind::Directory;
    if da != db {
        da
    } else if la != lb {
        seq_lt(la, lb)
    } else {
        seq_lt(a.name, b.name)
    }
}

/// Entries whose sort keys coincide.
pub open spec fn same_sort_key(a: FileEntryView, b: FileEntryView) -> bool {
    (a.kind == EntryKind::Directory) == (b.kind == EntryKind::Directory) && a.name == b.name
}

/// No entry is listed after one that should come later.
pub open spec fn entries_sorted(s: Seq<FileEntryView>) -> bool {
    forall|i: int, j: int| 0 <= i < j < s.len() ==> !entry_lt(#[trigger] s[j], #[trigger] s[i])
}

pub open spec fn entry_views(s: Seq<FileEntry>) -> Seq<FileEntryView> {
    s.map_values(|e: FileEntry| e@)
}

/// `e` placed before the first entry of `sorted` that it does not follow.
pub open spec fn insert_entry(sorted: Seq<FileEntryView>, e: FileEntryView) -> Seq<FileEntryView>
    decreases sorted.len(),
{
    if sorted.len() == 0 {
        seq![e]
    } else if entry_lt(sorted[0], e) {
        seq![sorted[0]] + insert_entry(sorted.drop_first(), e)
    } else {
        seq![e] + sorted
    }
}

/// The listing order of `s`, entries with the same sort key kept in the
/// order they came in (a stable sort).
pub open spec fn listing_order(s: Seq<FileEntryView>) -> Seq<FileEntryView>
    decreases s.len(),
{
    if s.len() == 0 {
        s
    } else {
        insert_entry(listing_order(s.drop_first()), s[0])
    }
}

/// Inserting before the first entry not preceding `e` is [`insert_entry`].
proof fn lemma_insert_entry_at(sorted: Seq<FileEntryView>, e: FileEntryView, p: int)
    requires
        0 <= p <= sorted.len(),
        forall|i: int| 0 <= i < p ==> entry_lt(#[trigger] sorted[i], e),
        p < sorted.len() ==> !entry_lt(sorted[p], e),
    ensures
        insert_entry(sorted, e) == sorted.insert(p, e),
    decreases p,
{
    if p == 0 {
        if sorted.len() == 0 {
            assert(sorted.insert(0, e) =~= seq![e]);
        } else {
            assert(sorted.insert(0, e) =~= seq![e] + sorted);
        }
    } else {
        let rest = sorted.drop_first();
        assert(entry_lt(sorted[0], e));
        assert forall|i: int| 0 <= i < p - 1 implies entry_lt(#[trigger] rest[i], e) by {
            assert(rest[i] == sorted[i + 1]);
        }
        if p - 1 < rest.len() {
            assert(rest[p - 1] == sorted[p]);
        }
        lemma_insert_entry_at(rest, e, p - 1);
        assert(seq![sorted[0]] + rest.insert(p - 1, e) =~= sorted.insert(p, e));
    }
}

pub proof fn lemma_entry_lt_irreflexive(a: FileEntryView)
    ensures
        !entry_lt(a, a),
{
    lemma_seq_lt_irreflexive(a.name);
}

pub proof fn lemma_entry_lt_transitive(a: FileEntryView, b: FileEntryView, c: FileEntryView)
    requires
        entry_lt(a, b),
        entry_lt(b, c),
    ensures
        entry_lt(a, c),
{
    let da = a.kind == EntryKind::Directory;
    let db = b.kind == EntryKind::Directory;
    let dc = c.kind == EntryKind::Directory;
    if da == db && db == dc {
        let (la, lb, lc) = (lowercase_of(a.name), lowercase_of(b.name), lowercase_of(c.name));
        if la != lb && lb != lc {
            lemma_seq_lt_transitive(la, lb, lc);
            if la == lc {
                lemma_seq_lt_irreflexive(la);
            }
        } else if la == lb && lb != lc {
        } else if la != lb && lb == lc {
        } else {
            lemma_seq_lt_transitive(a.name, b.name, c.name);
        }
    }
}

pub proof fn lemma_entry_lt_total(a: FileEntryView, b: FileEntryView)
    ensures
        same_sort_key(a, b) || entry_lt(a, b) || entry_lt(b, a),
{
    lemma_seq_lt_total(lowercase_of(a.name), lowercase_of(b.name));
    lemma_seq_lt_total(a.name, b.name);
}

/// If `x` comes before `z`, then any `y` comes after `x` or before `z`.
pub proof fn lemma_entry_lt_weak(x: FileEntryView, y: FileEntryView, z: FileEntryView)
    requires
        entry_lt(x, z),
    ensures
        entry_lt(x, y) || entry_lt(y, z),
{
    lemma_entry_lt_total(x, y);
    lemma_entry_lt_total(y, z);
    if !entry_lt(x, y) && !entry_lt(y, z) {
        if same_sort_key(x, y) && same_sort_key(y, z) {
            lemma_entry_lt_irreflexive(x);
        } else if same_sort_key(x, y) {
            lemma_entry_lt_transitive(x, z, y);
            lemma_entry_lt_irreflexive(x);
        } else if same_sort_key(y, z) {
            lemma_entry_lt_transitive(x, z, y);
            lemma_entry_lt_irreflexive(z);
            lemma_entry_lt_transitive(z, y, x);
            lemma_entry_lt_transitive(x, z, x);
        } else {
            lemma_entry_lt_transitive(z, y, x);
            lemma_entry_lt_transitive(x, z, x);
            lemma_entry_lt_irreflexive(x);
        }
    }
}

fn entry_lt_exec(a: &FileEntry, b: &FileEntry) -> (res: bool)
    ensures
        res == entry_lt(a@, b@),
{
    let la = to_lower(a.name.as_str());
    let lb = to_lower(b.name.as_str());
    entry_before(a, b, la.as_str(), lb.as_str())
}

/// Whether `a` is listed strictly before `b`, given their names
/// lower-cased (`lower_a`, `lower_b`): see [`entry_lt_given`].
pub fn entry_before(a: &FileEntry, b: &FileEntry, lower_a: &str, lower_b: &str) -> (res: bool)
    ensures
        res == entry_lt_given(a@, b@, lower_a@, lower_b@),
{
    let da = a.kind.is_directory();
    let db = b.kind.is_directory();
    if da != db {
        return da;
    }
    let c = compare_strs(lower_a, lower_b);
    if c != 0 {
        c < 0
    } else {
        compare_strs(a.name.as_str(), b.name.as_str()) < 0
    }
}

/// Sorts a listing: directories first, then case-insensitively by name,
/// then by name.  The result holds the same entries.
pub fn sort_entries(entries: &mut Vec<FileEntry>)
    ensures
        entries_sorted(entry_views(final(entries)@)),
        entry_views(final(entries)@).to_multiset() == entry_views(old(entries)@).to_multiset(),
        entry_views(final(entries)@) == listing_order(entry_views(old(entries)@)),
{
    let mut input: Vec<FileEntry> = Vec::new();
    std::mem::swap(entries, &mut input);
    let ghost initial = entry_views(input@);
    let mut sorted: Vec<FileEntry> = Vec::new();
    proof {
        assert(entry_views(sorted@) =~= Seq::<FileEntryView>::empty());
        vstd::seq_lib::to_multiset_len(entry_views(sorted@));
        vstd::multiset::lemma_multiset_empty_len(entry_views(sorted@).to_multiset());
        assert(entry_views(sorted@).to_multiset().add(initial.to_multiset()) =~= initial.to_multiset());
        assert(initial.skip(initial.len() as int) =~= Seq::<FileEntryView>::empty());
    }
    while input.len() > 0
        invariant
            entries_sorted(entry_views(sorted@)),
            entry_views(input@) == initial.take(input@.len() as int),
            input@.len() <= initial.len(),
            entry_views(sorted@) == listing_order(initial.skip(input@.len() as int)),
            entry_views(sorted@).to_multiset().add(entry_views(input@).to_multiset())
                == initial.to_multiset(),
        decreases input.len(),
    {
        let ghost before_input = entry_views(input@);
        let e = input.pop().unwrap();
        proof {
            assert(before_input =~= entry_views(input@).push(e@));
            assert(entry_views(input@) =~= initial.take(input@.len() as int));
            assert(before_input[input@.len() as int] == e@);
            assert(before_input == initial.take(input@.len() + 1 as int));
            assert(e@ == initial[input@.len() as int]);
            let k = input@.len() as int;
            assert(initial.skip(k).drop_first() =~= initial.skip(k + 1));
            assert(initial.skip(k)[0] == initial[k]);
            vstd::seq_lib::to_multiset_build(entry_views(input@), e@);
        }
        let mut p: usize = 0;
        while p < sorted.len() && entry_lt_exec(&sorted[p], &e)
            invariant
                p <= sorted.len(),
                forall|i: int| 0 <= i < p ==> entry_lt(#[trigger] entry_views(sorted@)[i], e@),
            decreases sorted.len() - p,
        {
            p = p + 1;
        }
        let ghost old_sorted = entry_views(sorted@);
        proof {
            if p < sorted.len() {
                assert(!entry_lt(old_sorted[p as int], e@));
            }
        }
        sorted.insert(p, e);
        proof {
            let ns = entry_views(sorted@);
            assert(ns =~= old_sorted.insert(p as int, e@));
            lemma_insert_entry_at(old_sorted, e@, p as int);
            vstd::seq_lib::to_multiset_insert(old_sorted, p as int, e@);
            assert forall|i: int, j: int| 0 <= i < j < ns.len() implies !entry_lt(
                #[trigger] ns[j],
                #[trigger] ns[i],
            ) by {
                if i < p && j == p {
                    if entry_lt(e@, old_sorted[i]) {
                        lemma_entry_lt_transitive(e@, old_sorted[i], e@);
                        lemma_entry_lt_irreflexive(e@);
                    }
                } else if i == p && j > p {
                    if entry_lt(old_sorted[j - 1], e@) {
                        lemma_entry_lt_weak(old_sorted[j - 1], old_sorted[p as int], e@);
                    }
                } else if i < p && j > p {
                    assert(!entry_lt(old_sorted[j - 1], old_sorted[i]));
                } else if j < p {
                    assert(!entry_lt(old_sorted[j], old_sorted[i]));
                } else {
                    assert(!entry_lt(old_sorted[j - 1], old_sorted[i - 1]));
                }
            }
            assert(ns.to_multiset().add(entry_views(input@).to_multiset()) =~= initial.to_multiset());
        }
    }
    proof {
        vstd::seq_lib::to_multiset_len(entry_views(input@));
        vstd::multiset::lemma_multiset_empty_len(entry_views(input@).to_multiset());
        assert(entry_views(input@).to_multiset() =~= Multiset::<FileEntryView>::empty());
        assert(entry_views(sorted@).to_multiset().add(Multiset::<FileEntryView>::empty())
            =~= entry_views(sorted@).to_multiset());
        assert(initial.skip(0) =~= initial);
    }
    *entries = sorted;
}

} // verus!
