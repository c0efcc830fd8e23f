//! Path arithmetic for remote (FTP / SMB / SSH) sources.
//!
//! Remote paths are always absolute, use `/` as separator, and are kept in a
//! normal form: no empty, `.` or `..` components.  A backslash in the input is
//! read as a separator.
use vstd::prelude::*;

use crate::text::{push_char, chars_of};

verus! {

// ---------------------------------------------------------------------------
// Specification
// ---------------------------------------------------------------------------

/// The input with every backslash read as a forward slash.
pub open spec fn slashed(s: Seq<char>) -> Seq<char> {
    s.map_values(|c: char| if c == '\\' { '/' } else { c })
}

/// The pieces of `s` between `/` separators, as `str::split('/')` yields them
/// (the empty string gives one empty piece).
pub open spec fn split_slash(s: Seq<char>) -> Seq<Seq<char>>
    decreases s.len(),
{
    if s.len() == 0 {
        seq![Seq::<char>::empty()]
    } else {
        let prev = split_slash(s.drop_last());
        if s.last() == '/' {
            prev.push(Seq::<char>::empty())
        } else {
            prev.update(prev.len() - 1, prev.last().push(s.last()))
        }
    }
}

/// One step of component resolution: empty and `.` pieces vanish, `..`
/// removes the previous component (if any), anything else is appended.
pub open spec fn resolve_step(stack: Seq<Seq<char>>, seg: Seq<char>) -> Seq<Seq<char>> {
    if seg.len() == 0 || seg == seq!['.'] {
        stack
    } else if seg == seq!['.', '.'] {
        if stack.len() > 0 {
            stack.drop_last()
        } else {
            stack
        }
    } else {
        stack.push(seg)
    }
}

/// Resolves the pieces `segs`, left to right, on top of `stack`.
pub open spec fn resolve_onto(stack: Seq<Seq<char>>, segs: Seq<Seq<char>>) -> Seq<Seq<char>>
    decreases segs.len(),
{
    if segs.len() == 0 {
        stack
    } else {
        resolve_step(resolve_onto(stack, segs.drop_last()), segs.last())
    }
}

/// The resolved components of a remote path.
pub open spec fn remote_components(raw: Seq<char>) -> Seq<Seq<char>> {
    resolve_onto(Seq::empty(), split_slash(slashed(raw)))
}

/// `/p0/p1/.../pn` for the components `p0 .. pn`.
pub open spec fn slash_join(parts: Seq<Seq<char>>) -> Seq<char>
    decreases parts.len(),
{
    if parts.len() == 0 {
        Seq::empty()
    } else {
        slash_join(parts.drop_last()) + seq!['/'] + parts.last()
    }
}

/// The absolute path with the given components (`/` when there are none).
pub open spec fn rooted(parts: Seq<Seq<char>>) -> Seq<char> {
    if parts.len() == 0 {
        seq!['/']
    } else {
        slash_join(parts)
    }
}

/// The normal form of a remote path.
pub open spec fn normalize_remote_spec(raw: Seq<char>) -> Seq<char> {
    rooted(remote_components(raw))
}

/// `s` with every trailing `c` removed (`str::trim_end_matches(c)`).
pub open spec fn trim_end_char(s: Seq<char>, c: char) -> Seq<char>
    decreases s.len(),
{
    if s.len() > 0 && s.last() == c {
        trim_end_char(s.drop_last(), c)
    } else {
        s
    }
}

/// `s` with every leading `c` removed (`str::trim_start_matches(c)`).
pub open spec fn trim_start_char(s: Seq<char>, c: char) -> Seq<char>
    decreases s.len(),
{
    if s.len() > 0 && s[0] == c {
        trim_start_char(s.drop_first(), c)
    } else {
        s
    }
}

/// The part of `s` after its last `c` (all of `s` when it holds no `c`).
pub open spec fn after_last(s: Seq<char>, c: char) -> Seq<char>
    decreases s.len(),
{
    if s.len() == 0 {
        s
    } else if s.last() == c {
        Seq::empty()
    } else {
        after_last(s.drop_last(), c).push(s.last())
    }
}

/// The path of `child` inside the remote directory `base`, normalized.
pub open spec fn remote_join_spec(base: Seq<char>, child: Seq<char>) -> Seq<char> {
    normalize_remote_spec(trim_end_char(base, '/') + seq!['/'] + child)
}

/// The parent of a remote path: `None` for the root, otherwise the normal
/// form without its last component.
pub open spec fn remote_parent_spec(path: Seq<char>) -> Option<Seq<char>> {
    let parts = remote_components(path);
    if parts.len() == 0 {
        None
    } else {
        Some(rooted(parts.drop_last()))
    }
}

/// The last component of a remote path as written (trailing slashes
/// ignored); `None` for `/` and for the empty path.
pub open spec fn remote_file_name_spec(path: Seq<char>) -> Option<Seq<char>> {
    let t = trim_end_char(path, '/');
    if t.len() == 0 || t == seq!['/'] {
        None
    } else {
        Some(after_last(t, '/'))
    }
}

/// The views of a vector of character vectors.
pub open spec fn views(v: Seq<Vec<char>>) -> Seq<Seq<char>> {
    v.map_values(|p: Vec<char>| p@)
}

// ---------------------------------------------------------------------------
// Lemmas
// ---------------------------------------------------------------------------

pub proof fn lemma_split_nonempty(s: Seq<char>)
    ensures
        split_slash(s).len() >= 1,
    decreases s.len(),
{
    if s.len() > 0 {
        lemma_split_nonempty(s.drop_last());
    }
}

// ---------------------------------------------------------------------------
// Executable code
// ---------------------------------------------------------------------------

fn is_dot_segment(seg: &Vec<char>) -> (res: bool)
    ensures
        res == (seg@ == seq!['.']),
{
    if seg.len() == 1 && seg[0] == '.' {
        assert(seg@ =~= seq!['.']);
        true
    } else {
        false
    }
}

fn is_dot_dot_segment(seg: &Vec<char>) -> (res: bool)
    ensures
        res == (seg@ == seq!['.', '.']),
{
    if seg.len() == 2 && seg[0] == '.' && seg[1] == '.' {
        assert(seg@ =~= seq!['.', '.']);
        true
    } else {
        false
    }
}

fn apply_step(stack: &mut Vec<Vec<char>>, seg: Vec<char>)
    ensures
        views(final(stack)@) == resolve_step(views(old(stack)@), seg@),
{
    if seg.len() == 0 || is_dot_segment(&seg) {
    } else if is_dot_dot_segment(&seg) {
        if stack.len() > 0 {
            let _ = stack.pop();
            assert(views(stack@) =~= views(old(stack)@).drop_last());
        }
    } else {
        let ghost old_views = views(stack@);
        stack.push(seg);
        assert(views(stack@) =~= old_views.push(seg@));
    }
}

/// The resolved components of the remote path whose characters are `raw`.
fn components_of(raw: &Vec<char>) -> (parts: Vec<Vec<char>>)
    ensures
        views(parts@) == remote_components(raw@),
{
    let ghost s = slashed(raw@);
    let mut stack: Vec<Vec<char>> = Vec::new();
    let mut cur: Vec<char> = Vec::new();
    let mut i: usize = 0;
    proof {
        assert(s.take(0) =~= Seq::<char>::empty());
        assert(views(stack@) =~= Seq::<Seq<char>>::empty());
    }
    while i < raw.len()
        invariant
            i <= raw.len(),
            s == slashed(raw@),
            split_slash(s.take(i as int)).len() >= 1,
            cur@ == split_slash(s.take(i as int)).last(),
            views(stack@) == resolve_onto(Seq::empty(), split_slash(s.take(i as int)).drop_last()),
        decreases raw.len() - i,
    {
        let c = raw[i];
        let c2 = if c == '\\' { '/' } else { c };
        let ghost prev = split_slash(s.take(i as int));
        proof {
            assert(s.take(i + 1).drop_last() =~= s.take(i as int));
            assert(s.take(i + 1).last() == c2);
            lemma_split_nonempty(s.take(i + 1));
        }
        if c2 == '/' {
            let seg = cur;
            cur = Vec::new();
            apply_step(&mut stack, seg);
            proof {
                let next = split_slash(s.take(i + 1));
                assert(next == prev.push(Seq::<char>::empty()));
                assert(next.drop_last() =~= prev);
                assert(prev.drop_last().push(prev.last()) =~= prev);
                assert(cur@ =~= next.last());
            }
        } else {
            cur.push(c2);
            proof {
                let next = split_slash(s.take(i + 1));
                assert(next == prev.update(prev.len() - 1, prev.last().push(c2)));
                assert(next.drop_last() =~= prev.drop_last());
            }
        }
        i = i + 1;
    }
    proof {
        assert(s.take(raw.len() as int) =~= s);
        let all = split_slash(s);
        assert(all.drop_last().push(all.last()) =~= all);
    }
    apply_step(&mut stack, cur);
    stack
}

/// The string `/p0/p1/.../pn` (or `/`) for the components `parts`.
pub(crate) fn rooted_string(parts: &Vec<Vec<char>>) -> (res: String)
    ensures
        res@ == rooted(views(parts@)),
{
    let mut res = String::new();
    if parts.len() == 0 {
        push_char(&mut res, '/');
        return res;
    }
    let mut k: usize = 0;
    proof {
        assert(views(parts@).take(0) =~= Seq::<Seq<char>>::empty());
    }
    while k < parts.len()
        invariant
            k <= parts.len(),
            res@ == slash_join(views(parts@).take(k as int)),
        decreases parts.len() - k,
    {
        let part = &parts[k];
        push_char(&mut res, '/');
        let ghost base = res@;
        let mut j: usize = 0;
        while j < part.len()
            invariant
                j <= part.len(),
                res@ == base + part@.take(j as int),
            decreases part.len() - j,
        {
            push_char(&mut res, part[j]);
            proof {
                assert(part@.take(j + 1) =~= part@.take(j as int).push(part[j as int]));
            }
            j = j + 1;
        }
        proof {
            let t = views(parts@).take(k + 1);
            assert(t.drop_last() =~= views(parts@).take(k as int));
            assert(t.last() == part@);
            assert(part@.take(part.len() as int) =~= part@);
            assert(res@ =~= slash_join(t.drop_last()) + seq!['/'] + t.last());
        }
        k = k + 1;
    }
    proof {
        assert(views(parts@).take(parts.len() as int) =~= views(parts@));
    }
    res
}

/// The characters of `s` with every trailing `c` removed.
pub(crate) fn trim_end_chars(s: &Vec<char>, c: char) -> (res: Vec<char>)
    ensures
        res@ == trim_end_char(s@, c),
{
    let mut end = s.len();
    proof {
        assert(s@.take(end as int) =~= s@);
    }
    while end > 0 && s[end - 1] == c
        invariant
            end <= s.len(),
            trim_end_char(s@, c) == trim_end_char(s@.take(end as int), c),
        decreases end,
    {
        proof {
            let t = s@.take(end as int);
            assert(t.drop_last() =~= s@.take(end - 1));
        }
        end = end - 1;
    }
    let mut res: Vec<char> = Vec::new();
    let mut i: usize = 0;
    while i < end
        invariant
            i <= end <= s.len(),
            res@ == s@.take(i as int),
        decreases end - i,
    {
        res.push(s[i]);
        proof {
            assert(s@.take(i + 1) =~= s@.take(i as int).push(s[i as int]));
        }
        i = i + 1;
    }
    res
}

/// Normalizes a remote path: backslashes become `/`, empty and `.`
/// components vanish, `..` removes the component before it, and the result
/// is absolute (`/` when nothing is left).
pub fn normalize_remote(raw: &str) -> (res: String)
    ensures
        res@ == normalize_remote_spec(raw@),
{
    let chars = chars_of(raw);
    let parts = components_of(&chars);
    rooted_string(&parts)
}

/// The normalized path of `child` inside the remote directory `base`.
pub fn remote_join(base: &str, child: &str) -> (res: String)
    ensures
        res@ == remote_join_spec(base@, child@),
{
    let base_chars = chars_of(base);
    let mut joined = trim_end_chars(&base_chars, '/');
    joined.push('/');
    let child_chars = chars_of(child);
    let ghost prefix = joined@;
    let mut i: usize = 0;
    while i < child_chars.len()
        invariant
            i <= child_chars.len(),
            joined@ == prefix + child_chars@.take(i as int),
        decreases child_chars.len() - i,
    {
        joined.push(child_chars[i]);
        proof {
            assert(child_chars@.take(i + 1) =~= child_chars@.take(i as int).push(
                child_chars@[i as int],
            ));
        }
        i = i + 1;
    }
    proof {
        assert(child_chars@.take(child_chars.len() as int) =~= child@);
        assert(joined@ =~= trim_end_char(base@, '/') + seq!['/'] + child@);
    }
    let parts = components_of(&joined);
    rooted_string(&parts)
}

/// The parent directory of a remote path, or `None` at the root.
pub fn remote_parent(path: &str) -> (res: Option<String>)
    ensures
        match res {
            Some(p) => remote_parent_spec(path@) == Some(p@),
            None => remote_parent_spec(path@) is None,
        },
{
    let chars = chars_of(path);
    let mut parts = components_of(&chars);
    if parts.len() == 0 {
        None
    } else {
        let ghost all = views(parts@);
        let _ = parts.pop();
        proof {
            assert(views(parts@) =~= all.drop_last());
        }
        Some(rooted_string(&parts))
    }
}

} // verus!

verus! {

// ---------------------------------------------------------------------------
// Laws
// ---------------------------------------------------------------------------

/// A component that survives resolution unchanged and holds no separator.
pub open spec fn plain_component(seg: Seq<char>) -> bool {
    &&& seg.len() > 0
    &&& seg != seq!['.']
    &&& seg != seq!['.', '.']
    &&& forall|i: int| 0 <= i < seg.len() ==> #[trigger] seg[i] != '/' && seg[i] != '\\'
}

pub open spec fn all_plain(parts: Seq<Seq<char>>) -> bool {
    forall|i: int| 0 <= i < parts.len() ==> plain_component(#[trigger] parts[i])
}

proof fn lemma_split_concat(x: Seq<char>, y: Seq<char>)
    ensures
        split_slash(x + seq!['/'] + y) == split_slash(x) + split_slash(y),
    decreases y.len(),
{
    if y.len() == 0 {
        assert(x + seq!['/'] + y =~= x.push('/'));
        assert((x.push('/')).drop_last() =~= x);
        assert(split_slash(x).push(Seq::<char>::empty()) =~= split_slash(x) + seq![Seq::<char>::empty()]);
    } else {
        let y2 = y.drop_last();
        lemma_split_concat(x, y2);
        lemma_split_nonempty(y2);
        lemma_split_nonempty(x);
        let whole = x + seq!['/'] + y;
        assert(whole.drop_last() =~= x + seq!['/'] + y2);
        assert(whole.last() == y.last());
        let a = split_slash(x);
        let b = split_slash(y2);
        if y.last() == '/' {
            assert((a + b).push(Seq::<char>::empty()) =~= a + b.push(Seq::<char>::empty()));
        } else {
            assert((a + b).last() == b.last());
            assert((a + b).update((a + b).len() - 1, b.last().push(y.last())) =~= a + b.update(
                b.len() - 1,
                b.last().push(y.last()),
            ));
        }
    }
}

proof fn lemma_split_no_slash(s: Seq<char>)
    requires
        forall|i: int| 0 <= i < s.len() ==> s[i] != '/',
    ensures
        split_slash(s) == seq![s],
    decreases s.len(),
{
    if s.len() > 0 {
        lemma_split_no_slash(s.drop_last());
        assert(s.drop_last().push(s.last()) =~= s);
        assert(s[s.len() - 1] != '/');
        assert(seq![s.drop_last()].update(0, s.drop_last().push(s.last())) =~= seq![s]);
    } else {
        assert(s =~= Seq::<char>::empty());
    }
}

proof fn lemma_resolve_concat(st: Seq<Seq<char>>, a: Seq<Seq<char>>, b: Seq<Seq<char>>)
    ensures
        resolve_onto(st, a + b) == resolve_onto(resolve_onto(st, a), b),
    decreases b.len(),
{
    if b.len() == 0 {
        assert(a + b =~= a);
    } else {
        lemma_resolve_concat(st, a, b.drop_last());
        assert((a + b).drop_last() =~= a + b.drop_last());
        assert((a + b).last() == b.last());
    }
}

proof fn lemma_resolve_plain(st: Seq<Seq<char>>, b: Seq<Seq<char>>)
    requires
        all_plain(b),
    ensures
        resolve_onto(st, b) == st + b,
    decreases b.len(),
{
    if b.len() == 0 {
        assert(st + b =~= st);
    } else {
        lemma_resolve_plain(st, b.drop_last());
        assert(plain_component(b[b.len() - 1]));
        assert((st + b.drop_last()).push(b.last()) =~= st + b);
    }
}

proof fn lemma_slashed_plain(s: Seq<char>)
    requires
        forall|i: int| 0 <= i < s.len() ==> s[i] != '\\',
    ensures
        slashed(s) == s,
{
    assert(slashed(s) =~= s);
}

proof fn lemma_split_pieces_no_slash(s: Seq<char>)
    ensures
        forall|k: int, i: int|
            0 <= k < split_slash(s).len() && 0 <= i < split_slash(s)[k].len()
                ==> #[trigger] split_slash(s)[k][i] != '/' && exists|j: int|
                0 <= j < s.len() && s[j] == split_slash(s)[k][i],
    decreases s.len(),
{
    if s.len() > 0 {
        lemma_split_pieces_no_slash(s.drop_last());
        lemma_split_nonempty(s.drop_last());
        let prev = split_slash(s.drop_last());
        let cur = split_slash(s);
        assert forall|k: int, i: int|
            0 <= k < cur.len() && 0 <= i < cur[k].len() implies #[trigger] cur[k][i] != '/'
            && exists|j: int| 0 <= j < s.len() && s[j] == cur[k][i] by {
            if s.last() == '/' {
                assert(k < prev.len());
                assert(cur[k] == prev[k]);
                let j = choose|j: int| 0 <= j < s.drop_last().len() && s.drop_last()[j] == prev[k][i];
                assert(s[j] == cur[k][i]);
            } else if k < prev.len() - 1 {
                assert(cur[k] == prev[k]);
                let j = choose|j: int| 0 <= j < s.drop_last().len() && s.drop_last()[j] == prev[k][i];
                assert(s[j] == cur[k][i]);
            } else if i < prev.last().len() {
                assert(cur[k] == prev.last().push(s.last()));
                assert(cur[k][i] == prev[k][i]);
                let j = choose|j: int| 0 <= j < s.drop_last().len() && s.drop_last()[j] == prev[k][i];
                assert(s[j] == cur[k][i]);
            } else {
                assert(cur[k][i] == s.last());
                assert(s[s.len() - 1] == cur[k][i]);
            }
        }
    }
}

proof fn lemma_resolve_keeps_plain(st: Seq<Seq<char>>, segs: Seq<Seq<char>>)
    requires
        all_plain(st),
        forall|k: int, i: int|
            0 <= k < segs.len() && 0 <= i < segs[k].len() ==> #[trigger] segs[k][i] != '/'
                && segs[k][i] != '\\',
    ensures
        all_plain(resolve_onto(st, segs)),
    decreases segs.len(),
{
    if segs.len() > 0 {
        lemma_resolve_keeps_plain(st, segs.drop_last());
        let prev = resolve_onto(st, segs.drop_last());
        let seg = segs.last();
        assert forall|i: int| 0 <= i < seg.len() implies #[trigger] seg[i] != '/' && seg[i] != '\\' by {
            assert(segs[segs.len() - 1][i] != '/');
        }
    }
}

/// The components of any remote path are plain.
pub proof fn lemma_components_plain(raw: Seq<char>)
    ensures
        all_plain(remote_components(raw)),
{
    let s = slashed(raw);
    lemma_split_pieces_no_slash(s);
    let segs = split_slash(s);
    assert forall|k: int, i: int|
        0 <= k < segs.len() && 0 <= i < segs[k].len() implies #[trigger] segs[k][i] != '/'
        && segs[k][i] != '\\' by {
        let j = choose|j: int| 0 <= j < s.len() && s[j] == segs[k][i];
        assert(s[j] != '\\');
    }
    lemma_resolve_keeps_plain(Seq::empty(), segs);
}

proof fn lemma_split_slash_join(parts: Seq<Seq<char>>)
    requires
        all_plain(parts),
    ensures
        split_slash(slash_join(parts)) == seq![Seq::<char>::empty()] + parts,
    decreases parts.len(),
{
    if parts.len() == 0 {
        assert(seq![Seq::<char>::empty()] + parts =~= seq![Seq::<char>::empty()]);
    } else {
        let init = parts.drop_last();
        lemma_split_slash_join(init);
        let last = parts.last();
        assert(plain_component(parts[parts.len() - 1]));
        lemma_split_concat(slash_join(init), last);
        lemma_split_no_slash(last);
        assert(seq![Seq::<char>::empty()] + init + seq![last] =~= seq![Seq::<char>::empty()] + parts);
    }
}

proof fn lemma_slash_join_no_backslash(parts: Seq<Seq<char>>)
    requires
        all_plain(parts),
    ensures
        forall|i: int| 0 <= i < slash_join(parts).len() ==> slash_join(parts)[i] != '\\',
    decreases parts.len(),
{
    if parts.len() > 0 {
        lemma_slash_join_no_backslash(parts.drop_last());
        let init = slash_join(parts.drop_last());
        let last = parts.last();
        assert(plain_component(parts[parts.len() - 1]));
        assert forall|i: int| 0 <= i < slash_join(parts).len() implies slash_join(parts)[i] != '\\' by {
            if i < init.len() {
                assert(slash_join(parts)[i] == init[i]);
            } else if i > init.len() {
                assert(slash_join(parts)[i] == last[i - init.len() - 1]);
            }
        }
    }
}

/// The components of a rooted path built from plain components are those
/// components.
pub proof fn lemma_components_of_rooted(parts: Seq<Seq<char>>)
    requires
        all_plain(parts),
    ensures
        remote_components(rooted(parts)) == parts,
{
    if parts.len() == 0 {
        let r = seq!['/'];
        assert(slashed(r) =~= r);
        assert(r =~= Seq::<char>::empty() + seq!['/'] + Seq::<char>::empty());
        lemma_split_concat(Seq::<char>::empty(), Seq::<char>::empty());
        let segs = split_slash(r);
        assert(segs =~= seq![Seq::<char>::empty(), Seq::<char>::empty()]);
        assert(segs.drop_last() =~= seq![Seq::<char>::empty()]);
        assert(segs.drop_last().drop_last() =~= Seq::<Seq<char>>::empty());
        let e = Seq::<Seq<char>>::empty();
        assert(resolve_onto(e, segs.drop_last().drop_last()) == e);
        assert(resolve_onto(e, segs.drop_last()) == resolve_step(e, Seq::<char>::empty()));
        assert(resolve_onto(e, segs.drop_last()) == e);
        assert(resolve_onto(e, segs) == resolve_step(e, Seq::<char>::empty()));
    } else {
        lemma_slash_join_no_backslash(parts);
        lemma_slashed_plain(slash_join(parts));
        lemma_split_slash_join(parts);
        let head = seq![Seq::<char>::empty()];
        lemma_resolve_concat(Seq::empty(), head, parts);
        assert(head.drop_last() =~= Seq::<Seq<char>>::empty());
        let e = Seq::<Seq<char>>::empty();
        assert(resolve_onto(e, head) == resolve_step(resolve_onto(e, head.drop_last()), head.last()));
        assert(resolve_onto(e, head) == e);
        lemma_resolve_plain(Seq::empty(), parts);
        assert(Seq::<Seq<char>>::empty() + parts =~= parts);
    }
}

/// Normalizing a normalized remote path changes nothing.
pub proof fn law_normalize_idempotent(raw: Seq<char>)
    ensures
        normalize_remote_spec(normalize_remote_spec(raw)) == normalize_remote_spec(raw),
{
    lemma_components_plain(raw);
    lemma_components_of_rooted(remote_components(raw));
}

proof fn lemma_components_trailing_slash(s: Seq<char>)
    ensures
        remote_components(s.push('/')) == remote_components(s),
{
    assert(slashed(s.push('/')) =~= slashed(s).push('/'));
    assert(slashed(s).push('/').drop_last() =~= slashed(s));
    let segs = split_slash(slashed(s).push('/'));
    assert(segs == split_slash(slashed(s)).push(Seq::<char>::empty()));
    assert(segs.drop_last() =~= split_slash(slashed(s)));
}

proof fn lemma_components_trim_end(s: Seq<char>)
    ensures
        remote_components(trim_end_char(s, '/')) == remote_components(s),
    decreases s.len(),
{
    if s.len() > 0 && s.last() == '/' {
        lemma_components_trim_end(s.drop_last());
        lemma_components_trailing_slash(s.drop_last());
        assert(s.drop_last().push('/') =~= s);
    }
}

proof fn lemma_components_join(base: Seq<char>, child: Seq<char>)
    requires
        plain_component(child),
    ensures
        remote_components(trim_end_char(base, '/') + seq!['/'] + child) == remote_components(
            base,
        ).push(child),
{
    let t = trim_end_char(base, '/');
    lemma_slashed_plain(child);
    assert(slashed(t + seq!['/'] + child) =~= slashed(t) + seq!['/'] + slashed(child));
    lemma_split_concat(slashed(t), child);
    lemma_split_no_slash(child);
    let segs = split_slash(slashed(t)) + seq![child];
    assert(segs.drop_last() =~= split_slash(slashed(t)));
    lemma_components_trim_end(base);
}

proof fn lemma_after_last_join(x: Seq<char>, c: Seq<char>)
    requires
        forall|i: int| 0 <= i < c.len() ==> c[i] != '/',
    ensures
        after_last(x + seq!['/'] + c, '/') == c,
    decreases c.len(),
{
    if c.len() == 0 {
        assert((x + seq!['/'] + c).last() == '/');
    } else {
        lemma_after_last_join(x, c.drop_last());
        assert((x + seq!['/'] + c).drop_last() =~= x + seq!['/'] + c.drop_last());
        assert(c.drop_last().push(c.last()) =~= c);
    }
}

/// Joining a plain name onto a remote directory and taking the parent gives
/// back the normalized directory.
pub proof fn law_parent_of_join(base: Seq<char>, child: Seq<char>)
    requires
        plain_component(child),
    ensures
        remote_parent_spec(remote_join_spec(base, child)) == Some(normalize_remote_spec(base)),
{
    lemma_components_join(base, child);
    let parts = remote_components(base).push(child);
    lemma_components_plain(base);
    assert(all_plain(parts));
    lemma_components_of_rooted(parts);
    assert(parts.drop_last() =~= remote_components(base));
}

/// Joining a plain name onto a remote directory and taking the file name
/// gives back that name.
pub proof fn law_file_name_of_join(base: Seq<char>, child: Seq<char>)
    requires
        plain_component(child),
    ensures
        remote_file_name_spec(remote_join_spec(base, child)) == Some(child),
{
    lemma_components_join(base, child);
    let parts = remote_components(base).push(child);
    let joined = slash_join(parts);
    assert(parts.drop_last() =~= remote_components(base));
    assert(joined == slash_join(remote_components(base)) + seq!['/'] + child);
    assert(joined.last() == child.last()) by {
        assert(child.len() > 0);
        assert(joined[joined.len() - 1] == child[child.len() - 1]);
    }
    assert(trim_end_char(joined, '/') == joined);
    if joined =~= seq!['/'] {
        assert(joined.len() == 1);
    }
    lemma_after_last_join(slash_join(remote_components(base)), child);
}


proof fn lemma_slash_join_shape(parts: Seq<Seq<char>>)
    requires
        all_plain(parts),
        parts.len() > 0,
    ensures
        slash_join(parts).len() > 0,
        slash_join(parts)[0] == '/',
        slash_join(parts).last() != '/',
        forall|i: int, j: int|
            0 <= i && j == i + 1 && j < slash_join(parts).len() ==> !(#[trigger] slash_join(parts)[i] == '/'
                && #[trigger] slash_join(parts)[j] == '/'),
    decreases parts.len(),
{
    let init = parts.drop_last();
    let last = parts.last();
    assert(plain_component(parts[parts.len() - 1]));
    let p = slash_join(init);
    let jn = slash_join(parts);
    assert(jn == p + seq!['/'] + last);
    assert(jn.last() == last.last()) by {
        assert(jn[jn.len() - 1] == last[last.len() - 1]);
    }
    assert(last[last.len() - 1] != '/');
    if init.len() == 0 {
        assert(p =~= Seq::<char>::empty());
        assert forall|i: int, j: int|
            0 <= i && j == i + 1 && j < jn.len() implies !(#[trigger] jn[i] == '/' && #[trigger] jn[j] == '/') by {
            assert(jn[j] == last[j - 1]);
        }
    } else {
        assert forall|i: int| 0 <= i < init.len() implies plain_component(#[trigger] init[i]) by {
            assert(init[i] == parts[i]);
        }
        lemma_slash_join_shape(init);
        assert(jn[0] == p[0]);
        assert forall|i: int, j: int|
            0 <= i && j == i + 1 && j < jn.len() implies !(#[trigger] jn[i] == '/' && #[trigger] jn[j] == '/') by {
            if j < p.len() {
                assert(jn[i] == p[i] && jn[j] == p[j]);
            } else if j == p.len() {
                assert(jn[i] == p[p.len() - 1]);
            } else if j == p.len() + 1 {
                assert(jn[j] == last[0]);
            } else {
                assert(jn[j] == last[j - p.len() - 1]);
            }
        }
    }
}

/// The normal form of any remote path starts with `/`, holds no backslash,
/// no `//`, and no `.` or `..` segment, and ends in `/` only when it is
/// the root.
pub proof fn law_normal_form_shape(raw: Seq<char>)
    ensures
        ({
            let r = normalize_remote_spec(raw);
            &&& r.len() > 0
            &&& r[0] == '/'
            &&& forall|i: int| 0 <= i < r.len() ==> #[trigger] r[i] != '\\'
            &&& forall|i: int, j: int|
                0 <= i && j == i + 1 && j < r.len() ==> !(#[trigger] r[i] == '/' && #[trigger] r[j] == '/')
            &&& (r == seq!['/'] || r.last() != '/')
            &&& forall|k: int|
                0 <= k < split_slash(r).len() ==> #[trigger] split_slash(r)[k] != seq!['.'] && split_slash(r)[k]
                    != seq!['.', '.']
        }),
{
    let parts = remote_components(raw);
    lemma_components_plain(raw);
    let r = normalize_remote_spec(raw);
    if parts.len() == 0 {
        assert(r == seq!['/']);
        let e = Seq::<char>::empty();
        assert(r =~= e + seq!['/'] + e);
        lemma_split_concat(e, e);
        assert(split_slash(r) =~= seq![e, e]);
    } else {
        lemma_slash_join_shape(parts);
        lemma_slash_join_no_backslash(parts);
        lemma_split_slash_join(parts);
        assert forall|k: int| 0 <= k < split_slash(r).len() implies #[trigger] split_slash(r)[k] != seq!['.']
            && split_slash(r)[k] != seq!['.', '.'] by {
            if k == 0 {
                assert(split_slash(r)[0] == Seq::<char>::empty());
            } else {
                assert(split_slash(r)[k] == parts[k - 1]);
                assert(plain_component(parts[k - 1]));
            }
        }
    }
}

/// A normalized remote path other than the root is its parent joined with
/// its file name.
pub proof fn law_join_of_parent_and_name(path: Seq<char>)
    requires
        normalize_remote_spec(path) == path,
        path != seq!['/'],
    ensures
        remote_parent_spec(path) matches Some(parent) && remote_file_name_spec(path) matches Some(name)
            && remote_join_spec(parent, name) == path,
{
    let parts = remote_components(path);
    lemma_components_plain(path);
    assert(parts.len() > 0);
    let init = parts.drop_last();
    let last = parts.last();
    assert(plain_component(parts[parts.len() - 1]));
    assert forall|i: int| 0 <= i < init.len() implies plain_component(#[trigger] init[i]) by {
        assert(init[i] == parts[i]);
    }
    let parent = rooted(init);
    assert(remote_parent_spec(path) == Some(parent));
    // the file name is the last component
    lemma_slash_join_shape(parts);
    assert(path == slash_join(init) + seq!['/'] + last);
    assert(trim_end_char(path, '/') == path);
    if path =~= seq!['/'] {
        assert(false);
    }
    lemma_after_last_join(slash_join(init), last);
    assert(remote_file_name_spec(path) == Some(last));
    // joining them back
    lemma_components_join(parent, last);
    lemma_components_of_rooted(init);
    assert(init.push(last) =~= parts);
}

} // verus!
