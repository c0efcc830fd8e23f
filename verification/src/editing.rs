//! Editing one-line text fields whose cursor is a byte offset that always
//! sits on a character boundary.
use vstd::prelude::*;
use vstd::utf8::encode_utf8;

use crate::input::CommandEditAction;
use crate::text::{byte_len, chars_of, push_char, str_len, string_from_chars};

verus! {

/// The number of bytes of a character in UTF-8.
pub open spec fn char_width(c: char) -> nat {
    if (c as u32) <= 0x7F {
        1
    } else if (c as u32) <= 0x7FF {
        2
    } else if (c as u32) <= 0xFFFF {
        3
    } else {
        4
    }
}

/// Whether `cursor` is the byte offset of a character boundary of `s`.
pub open spec fn is_boundary(s: Seq<char>, cursor: int) -> bool {
    exists|k: int| 0 <= k <= s.len() && byte_len(s.take(k)) == cursor
}

/// The number of characters before the boundary at byte offset `cursor`.
pub open spec fn boundary_index(s: Seq<char>, cursor: int) -> int {
    choose|k: int| 0 <= k <= s.len() && byte_len(s.take(k)) == cursor
}

/// The boundary before the character that ends at `cursor` (0 at the
/// start of the text).
pub open spec fn previous_boundary(s: Seq<char>, cursor: int) -> int {
    let k = boundary_index(s, cursor);
    if k > 0 {
        byte_len(s.take(k - 1)) as int
    } else {
        0
    }
}

/// The boundary after the character that starts at `cursor` (the end of
/// the text when there is none).
pub open spec fn next_boundary(s: Seq<char>, cursor: int) -> int {
    let k = boundary_index(s, cursor);
    if k < s.len() {
        byte_len(s.take(k + 1)) as int
    } else {
        byte_len(s) as int
    }
}

/// The text and cursor after an edit.
pub open spec fn edited(s: Seq<char>, cursor: int, edit: CommandEditAction) -> (Seq<char>, int) {
    let k = boundary_index(s, cursor);
    match edit {
        CommandEditAction::Insert(c) => (s.take(k).push(c) + s.skip(k), cursor + char_width(c)),
        CommandEditAction::Backspace => if cursor > 0 {
            (s.take(k - 1) + s.skip(k), previous_boundary(s, cursor))
        } else {
            (s, cursor)
        },
        CommandEditAction::MoveCursorLeft => if cursor > 0 {
            (s, previous_boundary(s, cursor))
        } else {
            (s, cursor)
        },
        CommandEditAction::MoveCursorRight => if cursor < byte_len(s) {
            (s, next_boundary(s, cursor))
        } else {
            (s, cursor)
        },
    }
}

pub proof fn lemma_char_width(c: char)
    ensures
        encode_utf8(seq![c]).len() == char_width(c),
        1 <= char_width(c) <= 4,
{
    vstd::utf8::char_is_scalar(c);
    reveal_with_fuel(encode_utf8, 2);
    assert(seq![c].drop_first() =~= Seq::<char>::empty());
}

pub proof fn lemma_byte_len_concat(a: Seq<char>, b: Seq<char>)
    ensures
        byte_len(a + b) == byte_len(a) + byte_len(b),
    decreases a.len(),
{
    if a.len() == 0 {
        assert(a + b =~= b);
    } else {
        assert((a + b).drop_first() =~= a.drop_first() + b);
        assert((a + b)[0] == a[0]);
        lemma_byte_len_concat(a.drop_first(), b);
    }
}

pub proof fn lemma_byte_len_push(a: Seq<char>, c: char)
    ensures
        byte_len(a.push(c)) == byte_len(a) + char_width(c),
{
    assert(a.push(c) =~= a + seq![c]);
    lemma_byte_len_concat(a, seq![c]);
    lemma_char_width(c);
}

/// Longer prefixes have more bytes.
pub proof fn lemma_prefix_bytes_strict(s: Seq<char>, i: int, j: int)
    requires
        0 <= i < j <= s.len(),
    ensures
        byte_len(s.take(i)) < byte_len(s.take(j)),
    decreases j - i,
{
    assert(s.take(j) =~= s.take(j - 1).push(s[j - 1]));
    lemma_byte_len_push(s.take(j - 1), s[j - 1]);
    lemma_char_width(s[j - 1]);
    if i < j - 1 {
        lemma_prefix_bytes_strict(s, i, j - 1);
    }
}

/// A prefix has at most as many bytes as the whole text.
pub proof fn lemma_prefix_bytes_bounded(s: Seq<char>, i: int)
    requires
        0 <= i <= s.len(),
    ensures
        byte_len(s.take(i)) <= byte_len(s),
{
    assert(s.take(s.len() as int) =~= s);
    if i < s.len() {
        lemma_prefix_bytes_strict(s, i, s.len() as int);
    }
}

/// The character count of a boundary is the only one with its offset.
pub proof fn lemma_boundary_index(s: Seq<char>, k: int)
    requires
        0 <= k <= s.len(),
    ensures
        is_boundary(s, byte_len(s.take(k)) as int),
        boundary_index(s, byte_len(s.take(k)) as int) == k,
{
    let cursor = byte_len(s.take(k)) as int;
    assert(0 <= k <= s.len() && byte_len(s.take(k)) == cursor);
    let j = boundary_index(s, cursor);
    if j < k {
        lemma_prefix_bytes_strict(s, j, k);
    } else if j > k {
        lemma_prefix_bytes_strict(s, k, j);
    }
}

/// The width of a character, from its code point.
fn char_len_utf8(c: char) -> (res: usize)
    ensures
        res == char_width(c),
{
    let u = c as u32;
    if u <= 0x7F {
        1
    } else if u <= 0x7FF {
        2
    } else if u <= 0xFFFF {
        3
    } else {
        4
    }
}

/// The number of characters before the boundary at byte offset `index`.
fn char_index(chars: &Vec<char>, index: usize) -> (k: usize)
    requires
        is_boundary(chars@, index as int),
    ensures
        k == boundary_index(chars@, index as int),
        k <= chars@.len(),
        byte_len(chars@.take(k as int)) == index,
{
    let ghost s = chars@;
    let ghost target = boundary_index(s, index as int);
    let mut i: usize = 0;
    let mut pos: usize = 0;
    proof {
        assert(s.take(0) =~= Seq::<char>::empty());
        lemma_boundary_index(s, target);
    }
    while pos < index
        invariant
            s == chars@,
            0 <= target <= s.len(),
            s.len() == chars.len(),
            byte_len(s.take(target)) == index,
            i <= target,
            pos == byte_len(s.take(i as int)),
        decreases target - i,
    {
        proof {
            if i == target {
                assert(false);
            }
            assert(s.take(i + 1) =~= s.take(i as int).push(s[i as int]));
            lemma_byte_len_push(s.take(i as int), s[i as int]);
            if i + 1 < target {
                lemma_prefix_bytes_strict(s, i + 1, target);
            }
        }
        pos = pos + char_len_utf8(chars[i]);
        i = i + 1;
    }
    proof {
        if i < target {
            lemma_prefix_bytes_strict(s, i as int, target);
        }
    }
    i
}

/// Whether `index` is a character boundary of `text`, with room for one
/// more character after the text (see [`is_boundary`], [`byte_len_ok`]).
pub fn cursor_fits(text: &str, index: usize) -> (res: bool)
    ensures
        res == (is_boundary(text@, index as int) && byte_len_ok(text@)),
{
    let total = text.as_bytes().len();
    if total > usize::MAX - 4 {
        return false;
    }
    let chars = crate::text::chars_of(text);
    let ghost s = chars@;
    let mut i: usize = 0;
    let mut pos: usize = 0;
    proof {
        assert(s.take(0) =~= Seq::<char>::empty());
    }
    while i < chars.len() && pos < index
        invariant
            s == chars@,
            s == text@,
            total == byte_len(s),
            i <= s.len(),
            pos == byte_len(s.take(i as int)),
            i > 0 ==> byte_len(s.take(i - 1)) < index,
        decreases s.len() - i,
    {
        proof {
            assert(s.take(i + 1) =~= s.take(i as int).push(s[i as int]));
            lemma_byte_len_push(s.take(i as int), s[i as int]);
            lemma_prefix_bytes_bounded(s, i + 1);
        }
        pos = pos + char_len_utf8(chars[i]);
        i = i + 1;
    }
    let res = pos == index;
    proof {
        if res {
            assert(0 <= i <= s.len() && byte_len(s.take(i as int)) == index);
        } else {
            assert forall|k: int| 0 <= k <= s.len() implies byte_len(#[trigger] s.take(k)) != index by {
                if pos < index {
                    // every character was counted
                    assert(i == s.len());
                    if k < i {
                        lemma_prefix_bytes_strict(s, k, i as int);
                    }
                } else {
                    if k < i {
                        if k < i - 1 {
                            lemma_prefix_bytes_strict(s, k, i - 1);
                        }
                    } else if k > i {
                        lemma_prefix_bytes_strict(s, i as int, k);
                    }
                }
            }
        }
    }
    res
}

/// The byte offset of the boundary before the character ending at `index`
/// (0 at the start).
pub fn previous_char_boundary(text: &str, index: usize) -> (res: usize)
    requires
        is_boundary(text@, index as int),
    ensures
        res == previous_boundary(text@, index as int),
{
    let chars = chars_of(text);
    let k = char_index(&chars, index);
    if k == 0 {
        return 0;
    }
    proof {
        assert(chars@.take(k as int) =~= chars@.take(k - 1).push(chars@[k - 1]));
        lemma_byte_len_push(chars@.take(k - 1), chars@[k - 1]);
    }
    index - char_len_utf8(chars[k - 1])
}

/// The byte offset of the boundary after the character starting at
/// `index` (the end of the text when there is none).
pub fn next_char_boundary(text: &str, index: usize) -> (res: usize)
    requires
        is_boundary(text@, index as int),
        byte_len(text@) <= usize::MAX,
    ensures
        res == next_boundary(text@, index as int),
{
    let chars = chars_of(text);
    let k = char_index(&chars, index);
    if k < chars.len() {
        proof {
            assert(chars@.take(k + 1) =~= chars@.take(k as int).push(chars@[k as int]));
            lemma_byte_len_push(chars@.take(k as int), chars@[k as int]);
            lemma_prefix_bytes_bounded(chars@, k + 1);
        }
        index + char_len_utf8(chars[k])
    } else {
        str_len(text)
    }
}

/// The characters with `c` inserted before position `k`.
fn insert_char_at(chars: &Vec<char>, k: usize, c: char) -> (res: String)
    requires
        k <= chars@.len(),
    ensures
        res@ == chars@.take(k as int).push(c) + chars@.skip(k as int),
{
    let mut out: Vec<char> = Vec::new();
    let mut i: usize = 0;
    while i < chars.len()
        invariant
            k <= chars@.len(),
            i <= chars@.len(),
            out@ == if i <= k {
                chars@.take(i as int)
            } else {
                chars@.take(k as int).push(c) + chars@.subrange(k as int, i as int)
            },
        decreases chars.len() - i,
    {
        if i == k {
            out.push(c);
            proof {
                assert(chars@.subrange(k as int, k as int) =~= Seq::<char>::empty());
            }
        }
        out.push(chars[i]);
        proof {
            if i + 1 <= k {
                assert(chars@.take(i + 1) =~= chars@.take(i as int).push(chars@[i as int]));
            } else {
                assert(chars@.subrange(k as int, i + 1) =~= chars@.subrange(k as int, i as int).push(
                    chars@[i as int],
                ));
            }
        }
        i = i + 1;
    }
    if k == chars.len() {
        out.push(c);
    }
    proof {
        if k == chars@.len() {
            assert(chars@.take(k as int) =~= chars@);
            assert(chars@.skip(k as int) =~= Seq::<char>::empty());
        } else {
            assert(chars@.subrange(k as int, chars@.len() as int) =~= chars@.skip(k as int));
        }
        assert(out@ =~= chars@.take(k as int).push(c) + chars@.skip(k as int));
    }
    string_from_chars(&out)
}

/// The characters without the one at position `k`.
fn remove_char_at(chars: &Vec<char>, k: usize) -> (res: String)
    requires
        k < chars@.len(),
    ensures
        res@ == chars@.take(k as int) + chars@.skip(k + 1),
{
    let mut out: Vec<char> = Vec::new();
    let mut i: usize = 0;
    while i < chars.len()
        invariant
            k < chars@.len(),
            i <= chars@.len(),
            out@ == if i <= k {
                chars@.take(i as int)
            } else {
                chars@.take(k as int) + chars@.subrange(k + 1, i as int)
            },
        decreases chars.len() - i,
    {
        if i != k {
            out.push(chars[i]);
        }
        proof {
            if i < k {
                assert(chars@.take(i + 1) =~= chars@.take(i as int).push(chars@[i as int]));
            } else if i == k {
                assert(chars@.subrange(k + 1, k + 1) =~= Seq::<char>::empty());
                assert(out@ =~= chars@.take(k as int) + chars@.subrange(k + 1, i + 1));
            } else {
                assert(chars@.subrange(k + 1, i + 1) =~= chars@.subrange(k + 1, i as int).push(
                    chars@[i as int],
                ));
            }
        }
        i = i + 1;
    }
    proof {
        assert(chars@.subrange(k + 1, chars@.len() as int) =~= chars@.skip(k + 1));
    }
    string_from_chars(&out)
}

/// Applies one edit to a text field: inserts a character at the cursor,
/// deletes the character before it, or moves it one character.
pub fn edit_text(buffer: &mut String, cursor: &mut usize, edit: CommandEditAction)
    requires
        is_boundary(old(buffer)@, *old(cursor) as int),
        byte_len(old(buffer)@) + 4 <= usize::MAX,
    ensures
        (final(buffer)@, *final(cursor) as int) == edited(old(buffer)@, *old(cursor) as int, edit),
        is_boundary(final(buffer)@, *final(cursor) as int),
        edit is MoveCursorLeft || edit is MoveCursorRight ==> *final(buffer) == *old(buffer),
{
    let ghost s = buffer@;
    let chars = chars_of(buffer.as_str());
    let k = char_index(&chars, *cursor);
    proof {
        lemma_prefix_bytes_bounded(s, k as int);
    }
    match edit {
        CommandEditAction::Insert(ch) => {
            let next = insert_char_at(&chars, k, ch);
            let w = char_len_utf8(ch);
            *buffer = next;
            *cursor = *cursor + w;
            proof {
                let t = s.take(k as int).push(ch) + s.skip(k as int);
                assert(t.take(k + 1) =~= s.take(k as int).push(ch));
                lemma_byte_len_push(s.take(k as int), ch);
                lemma_boundary_index(t, k + 1);
            }
        },
        CommandEditAction::Backspace => {
            if *cursor > 0 {
                let at = previous_char_boundary(buffer.as_str(), *cursor);
                proof {
                    if k == 0 {
                        assert(s.take(0) =~= Seq::<char>::empty());
                    }
                }
                let next = remove_char_at(&chars, k - 1);
                *buffer = next;
                *cursor = at;
                proof {
                    let t = s.take(k - 1) + s.skip(k as int);
                    assert(s.take(k - 1) + s.skip(k - 1 + 1) == t);
                    assert(t.take(k - 1) =~= s.take(k - 1));
                    lemma_boundary_index(t, k - 1);
                }
            }
        },
        CommandEditAction::MoveCursorLeft => {
            if *cursor > 0 {
                proof {
                    if k == 0 {
                        assert(s.take(0) =~= Seq::<char>::empty());
                    }
                    lemma_boundary_index(s, k - 1);
                }
                *cursor = previous_char_boundary(buffer.as_str(), *cursor);
            }
        },
        CommandEditAction::MoveCursorRight => {
            if *cursor < str_len(buffer.as_str()) {
                proof {
                    if k == s.len() {
                        assert(s.take(k as int) =~= s);
                    }
                    lemma_boundary_index(s, k + 1);
                }
                *cursor = next_char_boundary(buffer.as_str(), *cursor);
            }
        },
    }
}

} // verus!

verus! {

/// A field has room for one more character (of at most four bytes).
pub open spec fn byte_len_ok(s: Seq<char>) -> bool {
    byte_len(s) + 4 <= usize::MAX
}

} // verus!

verus! {

/// Typing a character and then deleting it with Backspace gives back the
/// text and the cursor.
pub proof fn law_insert_then_backspace(s: Seq<char>, cursor: int, c: char)
    requires
        is_boundary(s, cursor),
    ensures
        ({
            let (t, after) = edited(s, cursor, CommandEditAction::Insert(c));
            edited(t, after, CommandEditAction::Backspace) == (s, cursor)
        }),
{
    let k = boundary_index(s, cursor);
    assert(0 <= k <= s.len() && byte_len(s.take(k)) == cursor);
    let t = s.take(k).push(c) + s.skip(k);
    let after = cursor + char_width(c);
    assert(t.take(k + 1) =~= s.take(k).push(c));
    lemma_byte_len_push(s.take(k), c);
    lemma_char_width(c);
    lemma_boundary_index(t, k + 1);
    assert(boundary_index(t, after) == k + 1);
    assert(t.take(k) =~= s.take(k));
    assert(t.take(k) + t.skip(k + 1) =~= s);
}

/// Moving the cursor right and then left returns it to where it was,
/// unless it was already at the end.
pub proof fn law_right_then_left(s: Seq<char>, cursor: int)
    requires
        is_boundary(s, cursor),
        cursor < byte_len(s),
    ensures
        ({
            let (t, after) = edited(s, cursor, CommandEditAction::MoveCursorRight);
            edited(t, after, CommandEditAction::MoveCursorLeft) == (s, cursor)
        }),
{
    let k = boundary_index(s, cursor);
    assert(0 <= k <= s.len() && byte_len(s.take(k)) == cursor);
    if k == s.len() {
        assert(s.take(k) =~= s);
    }
    lemma_boundary_index(s, k + 1);
    lemma_prefix_bytes_strict(s, k, k + 1);
}

} // verus!

verus! {

/// The start and the end of a text are boundaries.
pub proof fn lemma_ends_are_boundaries(s: Seq<char>)
    ensures
        is_boundary(s, 0),
        is_boundary(s, byte_len(s) as int),
{
    assert(s.take(0) =~= Seq::<char>::empty());
    lemma_boundary_index(s, 0);
    assert(s.take(s.len() as int) =~= s);
    lemma_boundary_index(s, s.len() as int);
}

/// An edit leaves the cursor on a boundary of the edited text.
pub proof fn lemma_edit_keeps_boundary(s: Seq<char>, cursor: int, edit: CommandEditAction)
    requires
        is_boundary(s, cursor),
    ensures
        is_boundary(edited(s, cursor, edit).0, edited(s, cursor, edit).1),
{
    let k = boundary_index(s, cursor);
    assert(0 <= k <= s.len() && byte_len(s.take(k)) == cursor);
    match edit {
        CommandEditAction::Insert(c) => {
            let t = s.take(k).push(c) + s.skip(k);
            assert(t.take(k + 1) =~= s.take(k).push(c));
            lemma_byte_len_push(s.take(k), c);
            lemma_boundary_index(t, k + 1);
        },
        CommandEditAction::Backspace => {
            if cursor > 0 {
                if k == 0 {
                    assert(s.take(0) =~= Seq::<char>::empty());
                }
                let t = s.take(k - 1) + s.skip(k);
                assert(t.take(k - 1) =~= s.take(k - 1));
                lemma_boundary_index(t, k - 1);
            }
        },
        CommandEditAction::MoveCursorLeft => {
            if cursor > 0 {
                if k == 0 {
                    assert(s.take(0) =~= Seq::<char>::empty());
                }
                lemma_boundary_index(s, k - 1);
            }
        },
        CommandEditAction::MoveCursorRight => {
            if cursor < byte_len(s) {
                if k == s.len() {
                    assert(s.take(k) =~= s);
                }
                lemma_boundary_index(s, k + 1);
            }
        },
    }
}

} // verus!
