//! Naming and describing saved locations: profile ids, secrets typed in a
//! dialog, and the text of status messages about sources.
use vstd::prelude::*;
use vstd::set_lib::{lemma_int_range, lemma_len_subset, lemma_map_size, set_int_range};

use crate::config::Config;
use crate::history::{HistoryEntry, HistoryEntryView};
use crate::input::Action;
use crate::profiles::SourceProfiles;
use crate::remote_path::{trim_end_char, trim_end_chars, trim_start_char};
use crate::source::{
    LocationPath, LocationPathView, SourceRef, SourceRefView, local_file_name, local_file_name_of,
    location_file_name, location_text, stable_key_spec,
};
use crate::state::{SourceMenuEntry, TransferDialogState, TransferOperation};
use crate::text::{ascii_lower, chars_of, concat, opt_view, owned, push_all, push_char, string_from_chars, trim, trim_ws};

verus! {

// ---------------------------------------------------------------------------
// Secrets typed in a dialog
// ---------------------------------------------------------------------------

/// A typed secret without surrounding whitespace; none when nothing is left.
pub open spec fn optional_secret(secret: Seq<char>) -> Option<Seq<char>> {
    if trim_ws(secret).len() == 0 {
        None
    } else {
        Some(trim_ws(secret))
    }
}

pub fn normalize_optional_secret(secret: &str) -> (res: Option<String>)
    ensures
        opt_view(res) == optional_secret(secret@),
{
    let trimmed = trim(secret);
    if trimmed.as_str().is_empty() {
        None
    } else {
        Some(trimmed)
    }
}

// ---------------------------------------------------------------------------
// Slugs
// ---------------------------------------------------------------------------

pub open spec fn is_ascii_alnum(c: char) -> bool {
    ('0' <= c && c <= '9') || ('a' <= c && c <= 'z') || ('A' <= c && c <= 'Z')
}

/// The slug built so far, and whether it ends with a dash that was added
/// for a run of other characters.
pub open spec fn slug_scan(s: Seq<char>) -> (Seq<char>, bool)
    decreases s.len(),
{
    if s.len() == 0 {
        (Seq::<char>::empty(), false)
    } else {
        let (acc, dash) = slug_scan(s.drop_last());
        let c = s.last();
        if is_ascii_alnum(c) {
            (acc.push(ascii_lower(c)), false)
        } else if !dash {
            (acc.push('-'), true)
        } else {
            (acc, dash)
        }
    }
}

/// The slug of a label: ASCII letters and digits lower-cased, every run of
/// other characters one dash, no dash at either end, and `location` when
/// nothing is left.
pub open spec fn slug_spec(label: Seq<char>) -> Seq<char> {
    let t = trim_start_char(trim_end_char(slug_scan(label).0, '-'), '-');
    if t.len() == 0 {
        "location"@
    } else {
        t
    }
}

fn trim_start_chars(s: &Vec<char>, c: char) -> (res: Vec<char>)
    ensures
        res@ == trim_start_char(s@, c),
{
    let mut start: usize = 0;
    proof {
        assert(s@.subrange(0, s@.len() as int) =~= s@);
    }
    while start < s.len() && s[start] == c
        invariant
            start <= s.len(),
            trim_start_char(s@, c) == trim_start_char(s@.subrange(start as int, s@.len() as int), c),
        decreases s.len() - start,
    {
        proof {
            assert(s@.subrange(start as int, s@.len() as int).drop_first() =~= s@.subrange(
                start + 1,
                s@.len() as int,
            ));
        }
        start = start + 1;
    }
    let mut res: Vec<char> = Vec::new();
    let mut i = start;
    while i < s.len()
        invariant
            start <= i <= s.len(),
            res@ == s@.subrange(start as int, i as int),
        decreases s.len() - i,
    {
        res.push(s[i]);
        proof {
            assert(s@.subrange(start as int, i + 1) =~= s@.subrange(start as int, i as int).push(s@[i as int]));
        }
        i = i + 1;
    }
    res
}

/// The slug of a label (see [`slug_spec`]).
pub fn slugify(label: &str) -> (res: String)
    ensures
        res@ == slug_spec(label@),
{
    let chars = chars_of(label);
    let mut slug: Vec<char> = Vec::new();
    let mut last_was_dash = false;
    let mut i: usize = 0;
    proof {
        assert(chars@.take(0) =~= Seq::<char>::empty());
    }
    while i < chars.len()
        invariant
            i <= chars.len(),
            chars@ == label@,
            (slug@, last_was_dash) == slug_scan(chars@.take(i as int)),
        decreases chars.len() - i,
    {
        let ch = chars[i];
        proof {
            let t = chars@.take(i + 1);
            assert(t.drop_last() =~= chars@.take(i as int));
            assert(t.last() == ch);
        }
        if ('0' <= ch && ch <= '9') || ('a' <= ch && ch <= 'z') || ('A' <= ch && ch <= 'Z') {
            let lower = if 'A' <= ch && ch <= 'Z' {
                ((ch as u8) + 32) as char
            } else {
                ch
            };
            slug.push(lower);
            last_was_dash = false;
        } else if !last_was_dash {
            slug.push('-');
            last_was_dash = true;
        }
        i = i + 1;
    }
    proof {
        assert(chars@.take(chars.len() as int) =~= label@);
    }
    let trimmed = trim_start_chars(&trim_end_chars(&slug, '-'), '-');
    if trimmed.len() == 0 {
        String::from_str("location")
    } else {
        string_from_chars(&trimmed)
    }
}

// ---------------------------------------------------------------------------
// Profile ids
// ---------------------------------------------------------------------------

pub open spec fn digit_char(d: int) -> char {
    if d == 0 { '0' } else if d == 1 { '1' } else if d == 2 { '2' } else if d == 3 { '3' }
    else if d == 4 { '4' } else if d == 5 { '5' } else if d == 6 { '6' } else if d == 7 { '7' }
    else if d == 8 { '8' } else { '9' }
}

/// The decimal digits of a number.
pub open spec fn decimal(n: nat) -> Seq<char>
    decreases n,
{
    if n < 10 {
        seq![digit_char(n as int)]
    } else {
        decimal(n / 10).push(digit_char((n % 10) as int))
    }
}

proof fn lemma_decimal_len(n: nat)
    ensures
        decimal(n).len() >= 1,
        n >= 10 ==> decimal(n).len() >= 2,
    decreases n,
{
    if n >= 10 {
        lemma_decimal_len(n / 10);
    }
}

/// Different numbers have different decimal forms.
pub proof fn lemma_decimal_injective(a: nat, b: nat)
    ensures
        decimal(a) == decimal(b) ==> a == b,
    decreases a,
{
    lemma_decimal_len(a);
    lemma_decimal_len(b);
    if decimal(a) == decimal(b) {
        if a < 10 && b < 10 {
            assert(decimal(a)[0] == digit_char(a as int));
            assert(decimal(b)[0] == digit_char(b as int));
        } else if a >= 10 && b >= 10 {
            assert(decimal(a).last() == digit_char((a % 10) as int));
            assert(decimal(b).last() == digit_char((b % 10) as int));
            assert(a % 10 == b % 10);
            assert(decimal(a).drop_last() =~= decimal(a / 10));
            assert(decimal(b).drop_last() =~= decimal(b / 10));
            lemma_decimal_injective(a / 10, b / 10);
            assert(a == 10 * (a / 10) + a % 10) by (nonlinear_arith);
            assert(b == 10 * (b / 10) + b % 10) by (nonlinear_arith);
        }
    }
}

/// The decimal form of a number (`usize::to_string`).
pub fn decimal_string(n: usize) -> (res: String)
    ensures
        res@ == decimal(n as nat),
    decreases n,
{
    let d = n % 10;
    let c = if d == 0 { '0' } else if d == 1 { '1' } else if d == 2 { '2' } else if d == 3 { '3' }
        else if d == 4 { '4' } else if d == 5 { '5' } else if d == 6 { '6' } else if d == 7 { '7' }
        else if d == 8 { '8' } else { '9' };
    if n < 10 {
        let mut s = String::new();
        push_char(&mut s, c);
        s
    } else {
        let mut s = decimal_string(n / 10);
        push_char(&mut s, c);
        s
    }
}

/// Every profile id of every kind, in one sequence.
pub open spec fn all_profile_ids(sources: SourceProfiles) -> Seq<Seq<char>> {
    sources.local.ids() + sources.ftp.ids() + sources.smb.ids() + sources.ssh.ids()
}

/// Whether any kind of profile already uses `id`.
pub fn profile_id_exists(id: &str, config: &Config) -> (res: bool)
    ensures
        res == config.sources.id_taken(id@),
{
    config.sources.local.contains_key(id) || config.sources.ftp.contains_key(id)
        || config.sources.smb.contains_key(id) || config.sources.ssh.contains_key(id)
}

/// The id tried for the `n`th clash: `base-n`.
pub open spec fn numbered_id(base: Seq<char>, n: nat) -> Seq<char> {
    base + "-"@ + decimal(n)
}

/// The id a new profile labelled `label` gets: its slug when no profile
/// uses it, else `slug-n` for the least `n` from 2 up that no profile uses.
pub open spec fn is_unique_id_for(label: Seq<char>, sources: SourceProfiles, id: Seq<char>) -> bool {
    let base = slug_spec(label);
    ||| !sources.id_taken(base) && id == base
    ||| sources.id_taken(base) && exists|n: nat| #![trigger numbered_id(base, n)]
        2 <= n && id == numbered_id(base, n) && !sources.id_taken(numbered_id(base, n))
            && forall|m: nat| 2 <= m < n ==> sources.id_taken(#[trigger] numbered_id(base, m))
}

proof fn lemma_numbered_injective(base: Seq<char>, a: nat, b: nat)
    ensures
        numbered_id(base, a) == numbered_id(base, b) ==> a == b,
{
    reveal_strlit("-");
    if numbered_id(base, a) == numbered_id(base, b) {
        let k = (base.len() + 1) as int;
        assert(numbered_id(base, a).skip(k) =~= decimal(a));
        assert(numbered_id(base, b).skip(k) =~= decimal(b));
        lemma_decimal_injective(a, b);
    }
}

proof fn lemma_taken_is_listed(sources: SourceProfiles, id: Seq<char>)
    ensures
        sources.id_taken(id) <==> all_profile_ids(sources).contains(id),
{
    let a = sources.local.ids();
    let b = sources.ftp.ids();
    let c = sources.smb.ids();
    let d = sources.ssh.ids();
    let all = all_profile_ids(sources);
    if sources.id_taken(id) {
        if a.contains(id) {
            let i = choose|i: int| 0 <= i < a.len() && a[i] == id;
            assert(all[i] == id);
        } else if b.contains(id) {
            let i = choose|i: int| 0 <= i < b.len() && b[i] == id;
            assert(all[a.len() + i] == id);
        } else if c.contains(id) {
            let i = choose|i: int| 0 <= i < c.len() && c[i] == id;
            assert(all[a.len() + b.len() + i] == id);
        } else {
            let i = choose|i: int| 0 <= i < d.len() && d[i] == id;
            assert(all[a.len() + b.len() + c.len() + i] == id);
        }
    }
    if all.contains(id) {
        let i = choose|i: int| 0 <= i < all.len() && all[i] == id;
        if i < a.len() {
            assert(a[i] == id);
        } else if i < a.len() + b.len() {
            assert(b[i - a.len()] == id);
        } else if i < a.len() + b.len() + c.len() {
            assert(c[i - a.len() - b.len()] == id);
        } else {
            assert(d[i - a.len() - b.len() - c.len()] == id);
        }
    }
}

/// When `base` and every id from `base-2` to `base-(k-1)` are taken, there
/// are at least `k - 1` profiles.
proof fn lemma_clashes_bounded(sources: SourceProfiles, base: Seq<char>, k: nat)
    requires
        k >= 2,
        sources.id_taken(base),
        forall|m: nat| 2 <= m < k ==> sources.id_taken(#[trigger] numbered_id(base, m)),
    ensures
        k - 1 <= all_profile_ids(sources).len(),
{
    reveal_strlit("-");
    let all = all_profile_ids(sources);
    let ids = all.to_set();
    let range = set_int_range(2, k as int);
    let f = |m: int| numbered_id(base, m as nat);
    let image = range.map(f);
    lemma_int_range(2, k as int);
    assert forall|x: int, y: int| range.contains(x) && range.contains(y) && #[trigger] f(x) == #[trigger] f(y)
        implies x == y by {
        lemma_numbered_injective(base, x as nat, y as nat);
    }
    lemma_map_size(range, image, f);
    assert forall|id: Seq<char>| image.contains(id) implies ids.contains(id) by {
        let m = choose|m: int| range.contains(m) && f(m) == id;
        assert(sources.id_taken(numbered_id(base, m as nat)));
        lemma_taken_is_listed(sources, id);
    }
    assert(!image.contains(base)) by {
        if image.contains(base) {
            let m = choose|m: int| range.contains(m) && f(m) == base;
            assert(f(m).len() > base.len());
        }
    }
    lemma_taken_is_listed(sources, base);
    assert(image.insert(base).subset_of(ids));
    all.lemma_cardinality_of_set();
    lemma_len_subset(image.insert(base), ids);
}

/// A fresh id for a profile labelled `label` (see [`is_unique_id_for`]).
pub fn unique_profile_id(label: &str, config: &Config) -> (res: String)
    requires
        all_profile_ids(config.sources).len() + 3 <= usize::MAX,
    ensures
        is_unique_id_for(label@, config.sources, res@),
        !config.sources.id_taken(res@),
{
    let base = slugify(label);
    let mut candidate = base.clone();
    let mut suffix: usize = 2;
    let ghost total = all_profile_ids(config.sources).len();
    while profile_id_exists(candidate.as_str(), config)
        invariant
            base@ == slug_spec(label@),
            total == all_profile_ids(config.sources).len(),
            total + 3 <= usize::MAX,
            2 <= suffix <= total + 2,
            suffix == 2 ==> candidate@ == base@,
            suffix > 2 ==> candidate@ == numbered_id(base@, (suffix - 1) as nat),
            suffix > 2 ==> config.sources.id_taken(base@),
            forall|m: nat| 2 <= m < suffix - 1 ==> config.sources.id_taken(#[trigger] numbered_id(base@, m)),
        decreases total + 2 - suffix,
    {
        proof {
            assert forall|m: nat| 2 <= m < suffix implies config.sources.id_taken(#[trigger] numbered_id(base@, m)) by {
                if m == suffix - 1 {
                }
            }
            lemma_clashes_bounded(config.sources, base@, suffix as nat);
        }
        let mut next = concat(base.as_str(), "-");
        let digits = decimal_string(suffix);
        push_all(&mut next, digits.as_str());
        candidate = next;
        suffix = suffix + 1;
    }
    proof {
        if suffix > 2 {
            let n = (suffix - 1) as nat;
            assert(2 <= n && candidate@ == numbered_id(base@, n) && !config.sources.id_taken(numbered_id(base@, n)));
        }
    }
    candidate
}

// ---------------------------------------------------------------------------
// Describing sources and operations
// ---------------------------------------------------------------------------

/// The name shown for a local directory: its last component, or the whole
/// path when it has none.
pub open spec fn display_name_spec(path: Seq<char>) -> Seq<char> {
    match local_file_name_of(path) {
        Some(name) => name,
        None => path,
    }
}

pub fn display_name(path: &str) -> (res: String)
    ensures
        res@ == display_name_spec(path@),
{
    match local_file_name(path) {
        Some(name) => name,
        None => owned(path),
    }
}

/// The name of a location in a message: its last component, else its text.
pub open spec fn location_name(path: LocationPathView) -> Seq<char> {
    match location_file_name(path) {
        Some(name) => name,
        None => location_text(path),
    }
}

/// What a finished operation reports: `name to destination` for a copy or
/// move, the new directory, or the deleted name.
pub open spec fn success_target_spec(op: TransferOperation, source: LocationPathView, destination: LocationPathView) -> Seq<char> {
    match op {
        TransferOperation::Copy | TransferOperation::Move => location_name(source) + " to "@
            + location_text(destination),
        TransferOperation::CreateDirectory => location_text(destination),
        TransferOperation::Delete => location_name(source),
    }
}

fn location_name_of(path: &LocationPath) -> (res: String)
    ensures
        res@ == location_name(path@),
{
    match path.file_name() {
        Some(name) => name,
        None => path.display(),
    }
}

pub fn success_target(dialog: &TransferDialogState, destination: &LocationPath) -> (res: String)
    ensures
        res@ == success_target_spec(dialog.operation, dialog.source@, destination@),
{
    match dialog.operation {
        TransferOperation::Copy | TransferOperation::Move => {
            let mut res = location_name_of(&dialog.source);
            push_all(&mut res, " to ");
            let dest = destination.display();
            push_all(&mut res, dest.as_str());
            res
        },
        TransferOperation::CreateDirectory => destination.display(),
        TransferOperation::Delete => location_name_of(&dialog.source),
    }
}

/// The action of a footer button slot (slots 0, 1 and 8 have none).
pub open spec fn footer_action_spec(slot: int) -> Option<Action> {
    if slot == 2 {
        Some(Action::BeginPreview)
    } else if slot == 3 {
        Some(Action::BeginAddLocation)
    } else if slot == 4 {
        Some(Action::BeginCopy)
    } else if slot == 5 {
        Some(Action::BeginMove)
    } else if slot == 6 {
        Some(Action::BeginCreateDirectory)
    } else if slot == 7 {
        Some(Action::BeginDelete)
    } else {
        None
    }
}

pub fn footer_button_action(slot: usize) -> (res: Option<Action>)
    ensures
        res == footer_action_spec(slot as int),
{
    match slot {
        2 => Some(Action::BeginPreview),
        3 => Some(Action::BeginAddLocation),
        4 => Some(Action::BeginCopy),
        5 => Some(Action::BeginMove),
        6 => Some(Action::BeginCreateDirectory),
        7 => Some(Action::BeginDelete),
        _ => None,
    }
}

// ---------------------------------------------------------------------------
// History entries as menu entries
// ---------------------------------------------------------------------------

/// The position of the first `c` in `s`, if any.
pub open spec fn first_index_of(s: Seq<char>, c: char) -> Option<int>
    decreases s.len(),
{
    if s.len() == 0 {
        None
    } else if s[0] == c {
        Some(0)
    } else {
        match first_index_of(s.drop_first(), c) {
            Some(i) => Some(i + 1),
            None => None,
        }
    }
}

/// The source a history key names, if it is an inline directory or a
/// profile that still exists.
pub open spec fn source_of_key(sources: SourceProfiles, key: Seq<char>, label: Seq<char>) -> Option<SourceRefView> {
    if key.len() >= 7 && key.take(7) == "inline:"@ {
        Some(SourceRefView::InlineLocal { path: key.skip(7), label })
    } else {
        match first_index_of(key, ':') {
            None => None,
            Some(i) => {
                let kind = key.take(i);
                let id = key.skip(i + 1);
                if kind == "local"@ && sources.local.has(id) {
                    Some(SourceRefView::SavedLocal { id })
                } else if kind == "ftp"@ && sources.ftp.has(id) {
                    Some(SourceRefView::SavedFtp { id })
                } else if kind == "smb"@ && sources.smb.has(id) {
                    Some(SourceRefView::SavedSmb { id })
                } else if kind == "ssh"@ && sources.ssh.has(id) {
                    Some(SourceRefView::SavedSsh { id })
                } else {
                    None
                }
            },
        }
    }
}

fn first_colon(chars: &Vec<char>) -> (res: Option<usize>)
    ensures
        match res {
            Some(i) => first_index_of(chars@, ':') == Some(i as int),
            None => first_index_of(chars@, ':') is None,
        },
        match res {
            Some(i) => i < chars@.len() && chars@[i as int] == ':' && forall|j: int|
                0 <= j < i ==> chars@[j] != ':',
            None => forall|j: int| 0 <= j < chars@.len() ==> chars@[j] != ':',
        },
{
    let mut i: usize = 0;
    assert(chars@.skip(0) =~= chars@);
    while i < chars.len()
        invariant
            i <= chars@.len(),
            forall|j: int| 0 <= j < i ==> chars@[j] != ':',
            first_index_of(chars@, ':') == match first_index_of(chars@.skip(i as int), ':') {
                Some(k) => Some(k + i),
                None => None,
            },
        decreases chars.len() - i,
    {
        proof {
            assert(chars@.skip(i as int).drop_first() =~= chars@.skip(i + 1));
            assert(chars@.skip(i as int)[0] == chars@[i as int]);
        }
        if chars[i] == ':' {
            return Some(i);
        }
        i = i + 1;
    }
    None
}

fn chars_from(chars: &Vec<char>, start: usize) -> (res: String)
    requires
        start <= chars@.len(),
    ensures
        res@ == chars@.skip(start as int),
{
    let mut out = String::new();
    let mut i = start;
    while i < chars.len()
        invariant
            start <= i <= chars@.len(),
            out@ == chars@.subrange(start as int, i as int),
        decreases chars.len() - i,
    {
        push_char(&mut out, chars[i]);
        proof {
            assert(chars@.subrange(start as int, i + 1) =~= chars@.subrange(start as int, i as int).push(
                chars@[i as int],
            ));
        }
        i = i + 1;
    }
    out
}

fn chars_until(chars: &Vec<char>, end: usize) -> (res: String)
    requires
        end <= chars@.len(),
    ensures
        res@ == chars@.take(end as int),
{
    let mut out = String::new();
    let mut i: usize = 0;
    while i < end
        invariant
            i <= end <= chars@.len(),
            out@ == chars@.take(i as int),
        decreases end - i,
    {
        push_char(&mut out, chars[i]);
        proof {
            assert(chars@.take(i + 1) =~= chars@.take(i as int).push(chars@[i as int]));
        }
        i = i + 1;
    }
    out
}

/// The view of a menu entry.
pub open spec fn menu_entry_matches(m: SourceMenuEntry, source: SourceRefView, label: Seq<char>, hint: LocationPathView) -> bool {
    m.source_ref@ == source && m.label@ == label && m.path_hint@ == hint
}

/// The menu entry offered for a remembered source: the same source, its
/// label, and its last directory; none when it names a profile that no
/// longer exists.
pub fn history_entry_to_menu_entry(config: &Config, entry: &HistoryEntry) -> (res: Option<SourceMenuEntry>)
    ensures
        match source_of_key(config.sources, entry.source_key@, entry.label@) {
            Some(src) => res matches Some(m) && menu_entry_matches(m, src, entry.label@, entry.last_path@),
            None => res is None,
        },
{
    proof {
        reveal_strlit("inline:");
        reveal_strlit("local");
        reveal_strlit("ftp");
        reveal_strlit("smb");
        reveal_strlit("ssh");
    }
    let chars = chars_of(entry.source_key.as_str());
    let is_inline = chars.len() >= 7 && chars[0] == 'i' && chars[1] == 'n' && chars[2] == 'l'
        && chars[3] == 'i' && chars[4] == 'n' && chars[5] == 'e' && chars[6] == ':';
    proof {
        if chars@.len() >= 7 {
            if is_inline {
                assert(chars@.take(7) =~= "inline:"@);
            } else {
                assert(chars@.take(7) != "inline:"@) by {
                    assert("inline:"@ =~= seq!['i', 'n', 'l', 'i', 'n', 'e', ':']);
                    if chars@.take(7) == "inline:"@ {
                        assert(chars@[0] == chars@.take(7)[0]);
                        assert(chars@[1] == chars@.take(7)[1]);
                        assert(chars@[2] == chars@.take(7)[2]);
                        assert(chars@[3] == chars@.take(7)[3]);
                        assert(chars@[4] == chars@.take(7)[4]);
                        assert(chars@[5] == chars@.take(7)[5]);
                        assert(chars@[6] == chars@.take(7)[6]);
                    }
                }
            }
        }
    }
    if is_inline {
        let path = chars_from(&chars, 7);
        Some(SourceMenuEntry {
            source_ref: SourceRef::InlineLocal { path, label: entry.label.clone() },
            label: entry.label.clone(),
            path_hint: entry.last_path.duplicate(),
        })
    } else {
        menu_entry_for_key(config, &chars, entry)
    }
}

fn menu_entry_for_key(config: &Config, chars: &Vec<char>, entry: &HistoryEntry) -> (res: Option<SourceMenuEntry>)
    requires
        chars@ == entry.source_key@,
        !(chars@.len() >= 7 && chars@.take(7) == "inline:"@),
    ensures
        match source_of_key(config.sources, entry.source_key@, entry.label@) {
            Some(src) => res matches Some(m) && menu_entry_matches(m, src, entry.label@, entry.last_path@),
            None => res is None,
        },
{
    let colon = first_colon(chars);
    let n = chars.len();
    match colon {
        None => None,
        Some(i) => {
            let kind = chars_until(chars, i);
            let id = chars_from(chars, i + 1);
            let ghost key = entry.source_key@;
            assert(first_index_of(key, ':') == Some(i as int));
            assert(key.take(i as int) == kind@);
            assert(key.skip(i + 1) == id@);
            saved_menu_entry(config, kind.as_str(), id, entry)
        },
    }
}

/// The menu entry of the saved profile `kind:id`, if that profile exists.
fn saved_menu_entry(config: &Config, kind: &str, id: String, entry: &HistoryEntry) -> (res: Option<SourceMenuEntry>)
    ensures
        ({
            let src = if kind@ == "local"@ && config.sources.local.has(id@) {
                Some(SourceRefView::SavedLocal { id: id@ })
            } else if kind@ == "ftp"@ && config.sources.ftp.has(id@) {
                Some(SourceRefView::SavedFtp { id: id@ })
            } else if kind@ == "smb"@ && config.sources.smb.has(id@) {
                Some(SourceRefView::SavedSmb { id: id@ })
            } else if kind@ == "ssh"@ && config.sources.ssh.has(id@) {
                Some(SourceRefView::SavedSsh { id: id@ })
            } else {
                None
            };
            match src {
                Some(s) => res matches Some(m) && menu_entry_matches(m, s, entry.label@, entry.last_path@),
                None => res is None,
            }
        }),
{
    let label = entry.label.clone();
    let hint = entry.last_path.duplicate();
    if crate::text::str_eq(kind, "local") && config.sources.local.contains_key(id.as_str()) {
        Some(SourceMenuEntry { source_ref: SourceRef::SavedLocal { id }, label, path_hint: hint })
    } else if crate::text::str_eq(kind, "ftp") && config.sources.ftp.contains_key(id.as_str()) {
        Some(SourceMenuEntry { source_ref: SourceRef::SavedFtp { id }, label, path_hint: hint })
    } else if crate::text::str_eq(kind, "smb") && config.sources.smb.contains_key(id.as_str()) {
        Some(SourceMenuEntry { source_ref: SourceRef::SavedSmb { id }, label, path_hint: hint })
    } else if crate::text::str_eq(kind, "ssh") && config.sources.ssh.contains_key(id.as_str()) {
        Some(SourceMenuEntry { source_ref: SourceRef::SavedSsh { id }, label, path_hint: hint })
    } else {
        None
    }
}

/// A menu entry made from a history entry refers to the source the entry
/// was recorded for: its key is the entry's key.
pub proof fn law_menu_entry_keeps_key(sources: SourceProfiles, key: Seq<char>, label: Seq<char>)
    ensures
        source_of_key(sources, key, label) matches Some(src) ==> stable_key_spec(src) == key,
{
    reveal_strlit("inline:");
    reveal_strlit("local");
    reveal_strlit("ftp");
    reveal_strlit("smb");
    reveal_strlit("ssh");
    reveal_strlit("local:");
    reveal_strlit("ftp:");
    reveal_strlit("smb:");
    reveal_strlit("ssh:");
    if key.len() >= 7 && key.take(7) == "inline:"@ {
        assert(key =~= key.take(7) + key.skip(7));
    } else {
        match first_index_of(key, ':') {
            None => {},
            Some(i) => {
                lemma_first_index_of(key, ':');
                assert(key =~= key.take(i) + seq![':'] + key.skip(i + 1));
                assert("local"@ + seq![':'] =~= "local:"@);
                assert("ftp"@ + seq![':'] =~= "ftp:"@);
                assert("smb"@ + seq![':'] =~= "smb:"@);
                assert("ssh"@ + seq![':'] =~= "ssh:"@);
            },
        }
    }
}

proof fn lemma_first_index_of(s: Seq<char>, c: char)
    ensures
        match first_index_of(s, c) {
            Some(i) => 0 <= i < s.len() && s[i] == c && forall|j: int| 0 <= j < i ==> s[j] != c,
            None => forall|j: int| 0 <= j < s.len() ==> s[j] != c,
        },
    decreases s.len(),
{
    if s.len() > 0 {
        lemma_first_index_of(s.drop_first(), c);
        if s[0] != c {
            match first_index_of(s.drop_first(), c) {
                Some(i) => {
                    assert forall|j: int| 0 <= j < i + 1 implies s[j] != c by {
                        if j > 0 {
                            assert(s[j] == s.drop_first()[j - 1]);
                        }
                    }
                },
                None => {
                    assert forall|j: int| 0 <= j < s.len() implies s[j] != c by {
                        if j > 0 {
                            assert(s[j] == s.drop_first()[j - 1]);
                        }
                    }
                },
            }
        }
    }
}

/// A saved profile that still exists comes back from its history key as
/// itself.
pub proof fn law_saved_source_round_trip(sources: SourceProfiles, source: SourceRefView, label: Seq<char>)
    requires
        match source {
            SourceRefView::InlineLocal { .. } => false,
            SourceRefView::SavedLocal { id } => sources.local.has(id),
            SourceRefView::SavedFtp { id } => sources.ftp.has(id),
            SourceRefView::SavedSmb { id } => sources.smb.has(id),
            SourceRefView::SavedSsh { id } => sources.ssh.has(id),
        },
    ensures
        source_of_key(sources, stable_key_spec(source), label) == Some(source),
{
    reveal_strlit("inline:");
    reveal_strlit("local");
    reveal_strlit("ftp");
    reveal_strlit("smb");
    reveal_strlit("ssh");
    reveal_strlit("local:");
    reveal_strlit("ftp:");
    reveal_strlit("smb:");
    reveal_strlit("ssh:");
    let key = stable_key_spec(source);
    let (kind, id): (Seq<char>, Seq<char>) = match source {
        SourceRefView::InlineLocal { path, .. } => (Seq::empty(), path),
        SourceRefView::SavedLocal { id } => ("local"@, id),
        SourceRefView::SavedFtp { id } => ("ftp"@, id),
        SourceRefView::SavedSmb { id } => ("smb"@, id),
        SourceRefView::SavedSsh { id } => ("ssh"@, id),
    };
    assert(key =~= kind + seq![':'] + id);
    lemma_first_index_of(key, ':');
    let i = kind.len() as int;
    assert(key[i] == ':');
    assert(forall|j: int| 0 <= j < i ==> key[j] == kind[j]);
    assert(first_index_of(key, ':') == Some(i)) by {
        lemma_first_index_of(key, ':');
        match first_index_of(key, ':') {
            Some(k) => {
                if k < i {
                    assert(key[k] == kind[k]);
                } else if k > i {
                }
            },
            None => {},
        }
    }
    assert(key.take(i) =~= kind);
    assert(key.skip(i + 1) =~= id);
    assert("local"@ =~= seq!['l', 'o', 'c', 'a', 'l']);
    assert("ftp"@ =~= seq!['f', 't', 'p']);
    assert("smb"@ =~= seq!['s', 'm', 'b']);
    assert("ssh"@ =~= seq!['s', 's', 'h']);
    assert("inline:"@ =~= seq!['i', 'n', 'l', 'i', 'n', 'e', ':']);
    if key.len() >= 7 {
        assert(key.take(7) != "inline:"@) by {
            assert(key[0] == kind[0]);
            assert(key.take(7)[0] == key[0]);
        }
    }
}

} // verus!
