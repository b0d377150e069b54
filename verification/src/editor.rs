//! One-line text editing at a byte cursor, as the prompts of the
//! interactive front-end do it.

use vstd::prelude::*;
use vstd::utf8::{encode_scalar, encode_utf8};
use crate::strings::{chars_of, string_of};

verus! {

/// The number of UTF-8 bytes of `s`.
pub open spec fn byte_len(s: Seq<char>) -> nat {
    encode_utf8(s).len()
}

/// The number of UTF-8 bytes of `c`.
pub open spec fn width(c: char) -> nat {
    encode_scalar(c as u32).len()
}

/// Whether byte offset `cursor` falls before the `k`-th character of `s`.
pub open spec fn is_boundary(s: Seq<char>, cursor: int, k: int) -> bool {
    0 <= k <= s.len() && byte_len(s.take(k)) == cursor
}

proof fn lemma_byte_len_concat(a: Seq<char>, b: Seq<char>)
    ensures
        byte_len(a + b) == byte_len(a) + byte_len(b),
    decreases a.len(),
{
    if a.len() > 0 {
        assert((a + b).drop_first() =~= a.drop_first() + b);
        assert((a + b)[0] == a[0]);
        lemma_byte_len_concat(a.drop_first(), b);
    } else {
        assert(a + b =~= b);
    }
}

proof fn lemma_width_bounds(c: char)
    ensures
        1 <= width(c) <= 4,
{
}

proof fn lemma_byte_len_single(c: char)
    ensures
        byte_len(seq![c]) == width(c),
{
    assert(seq![c].drop_first() =~= Seq::<char>::empty());
    assert(encode_utf8(Seq::<char>::empty()) =~= Seq::<u8>::empty());
    assert(encode_utf8(seq![c]) == encode_scalar(c as u32) + encode_utf8(seq![c].drop_first()));
}

proof fn lemma_byte_len_bound(s: Seq<char>)
    ensures
        byte_len(s) <= 4 * s.len(),
    decreases s.len(),
{
    if s.len() > 0 {
        assert(s =~= s.drop_last().push(s.last()));
        lemma_byte_len_push(s.drop_last(), s.last());
        lemma_width_bounds(s.last());
        lemma_byte_len_bound(s.drop_last());
    }
}

proof fn lemma_byte_len_push(s: Seq<char>, c: char)
    ensures
        byte_len(s.push(c)) == byte_len(s) + width(c),
{
    assert(s.push(c) =~= s + seq![c]);
    lemma_byte_len_concat(s, seq![c]);
    lemma_byte_len_single(c);
}

/// Longer prefixes have strictly more bytes.
proof fn lemma_take_monotone(s: Seq<char>, a: int, b: int)
    requires
        0 <= a < b <= s.len(),
    ensures
        byte_len(s.take(a)) < byte_len(s.take(b)),
    decreases b - a,
{
    assert(s.take(a + 1) =~= s.take(a).push(s[a]));
    lemma_byte_len_push(s.take(a), s[a]);
    lemma_width_bounds(s[a]);
    if a + 1 < b {
        lemma_take_monotone(s, a + 1, b);
    }
}

proof fn lemma_take_le_all(s: Seq<char>, a: int)
    requires
        0 <= a <= s.len(),
    ensures
        byte_len(s.take(a)) <= byte_len(s),
{
    assert(s.take(s.len() as int) =~= s);
    if a < s.len() {
        lemma_take_monotone(s, a, s.len() as int);
    }
}

/// Typing `c` at the caret before character `k` and then deleting the
/// character before the new caret gives back the input and the caret: the
/// caret after typing is the boundary before character `k + 1` of the typed
/// text, and removing that character leaves the input, with the caret back
/// at its byte offset.
pub proof fn lemma_type_then_delete_restores(input: Seq<char>, k: int, c: char)
    requires
        0 <= k <= input.len(),
    ensures
        ({
            let typed = input.take(k) + seq![c] + input.skip(k);
            &&& is_boundary(typed, (byte_len(input.take(k)) + byte_len(seq![c])) as int, k + 1)
            &&& typed.take(k) + typed.skip(k + 1) == input
            &&& byte_len(typed.take(k)) == byte_len(input.take(k))
        }),
{
    let typed = input.take(k) + seq![c] + input.skip(k);
    assert(typed.take(k) =~= input.take(k));
    assert(typed.take(k + 1) =~= input.take(k).push(c));
    assert(typed.skip(k + 1) =~= input.skip(k));
    assert(input.take(k) + input.skip(k) =~= input);
    lemma_byte_len_push(input.take(k), c);
    lemma_byte_len_single(c);
}

/// The number of UTF-8 bytes of `c` (`char::len_utf8`).
pub fn char_width(c: char) -> (r: usize)
    ensures
        r == width(c),
        1 <= r <= 4,
{
    let v = c as u32;
    if v <= 0x7F {
        1
    } else if v <= 0x7FF {
        2
    } else if v <= 0xFFFF {
        3
    } else {
        4
    }
}

/// The number of bytes of the first `k` characters.
fn prefix_bytes(chars: &[char], k: usize) -> (r: u128)
    requires
        k <= chars@.len(),
    ensures
        r == byte_len(chars@.take(k as int)),
{
    let mut acc: u128 = 0;
    let mut i: usize = 0;
    proof {
        assert(chars@.take(0) =~= Seq::<char>::empty());
    }
    while i < k
        invariant
            i <= k <= chars@.len(),
            acc == byte_len(chars@.take(i as int)),
        decreases k - i,
    {
        proof {
            assert(chars@.take(i + 1) =~= chars@.take(i as int).push(chars@[i as int]));
            lemma_byte_len_push(chars@.take(i as int), chars@[i as int]);
            lemma_byte_len_bound(chars@.take(i + 1));
        }
        acc = acc + char_width(chars[i]) as u128;
        i = i + 1;
    }
    acc
}

/// A byte count as a `usize`, saturating.
fn clamp_usize(x: u128) -> (r: usize)
    ensures
        x <= usize::MAX ==> r == x,
{
    if x <= usize::MAX as u128 {
        x as usize
    } else {
        usize::MAX
    }
}

/// The character index a byte cursor falls before: exact when the cursor is
/// on a boundary.
pub(crate) fn locate(chars: &[char], cursor: usize) -> (k: usize)
    ensures
        k <= chars@.len(),
        forall|j: int| is_boundary(chars@, cursor as int, j) ==> k == j,
{
    let mut acc: u128 = 0;
    let mut k: usize = 0;
    proof {
        assert(chars@.take(0) =~= Seq::<char>::empty());
    }
    while k < chars.len() && acc < cursor as u128
        invariant
            k <= chars@.len(),
            acc == byte_len(chars@.take(k as int)),
            forall|j: int| 0 <= j < k ==> byte_len(#[trigger] chars@.take(j)) < cursor,
        decreases chars@.len() - k,
    {
        proof {
            assert(chars@.take(k + 1) =~= chars@.take(k as int).push(chars@[k as int]));
            lemma_byte_len_push(chars@.take(k as int), chars@[k as int]);
            lemma_byte_len_bound(chars@.take(k + 1));
        }
        acc = acc + char_width(chars[k]) as u128;
        k = k + 1;
    }
    proof {
        assert forall|j: int| is_boundary(chars@, cursor as int, j) implies k == j by {
            if j < k {
            } else if j > k {
                lemma_take_monotone(chars@, k as int, j);
            }
        }
    }
    k
}

/// The byte offset of the character before the cursor, or 0.
pub open spec fn previous_boundary_spec(s: Seq<char>, k: int) -> int {
    if k > 0 {
        byte_len(s.take(k - 1)) as int
    } else {
        0
    }
}

/// The byte offset after the character at the cursor, or the end.
pub open spec fn next_boundary_spec(s: Seq<char>, k: int) -> int {
    if k < s.len() {
        byte_len(s.take(k + 1)) as int
    } else {
        byte_len(s) as int
    }
}

/// The byte offset of the character before `cursor`.
pub fn previous_char_boundary(text: &str, cursor: usize) -> (r: usize)
    ensures
        forall|k: int| is_boundary(text@, cursor as int, k) ==> r == previous_boundary_spec(text@, k),
{
    let chars = chars_of(text);
    let k = locate(chars.as_slice(), cursor);
    if k == 0 {
        return 0;
    }
    proof {
        if exists|j: int| is_boundary(text@, cursor as int, j) {
            lemma_take_monotone(chars@, k - 1, k as int);
        }
    }
    clamp_usize(prefix_bytes(chars.as_slice(), k - 1))
}

/// The byte offset after the character at `cursor`.
pub fn next_char_boundary(text: &str, cursor: usize) -> (r: usize)
    ensures
        forall|k: int|
            is_boundary(text@, cursor as int, k) && byte_len(text@) <= usize::MAX ==> r
                == next_boundary_spec(text@, k),
{
    let chars = chars_of(text);
    let k = locate(chars.as_slice(), cursor);
    proof {
        assert(chars@.take(chars@.len() as int) =~= chars@);
        if k < chars@.len() {
            lemma_take_le_all(chars@, k + 1);
        }
    }
    if k < chars.len() {
        clamp_usize(prefix_bytes(chars.as_slice(), k + 1))
    } else {
        clamp_usize(prefix_bytes(chars.as_slice(), chars.len()))
    }
}

/// `text` inserted at `cursor`, and the cursor moved past it.
pub fn insert_at(input: &str, cursor: usize, text: &str) -> (r: (String, usize))
    ensures
        forall|k: int|
            is_boundary(input@, cursor as int, k) ==> r.0@ == input@.take(k) + text@ + input@.skip(k)
                && (cursor + byte_len(text@) <= usize::MAX ==> r.1 == cursor + byte_len(text@)),
{
    let chars = chars_of(input);
    let k = locate(chars.as_slice(), cursor);
    let mut out: Vec<char> = Vec::new();
    let mut i: usize = 0;
    while i < k
        invariant
            i <= k <= chars@.len(),
            out@ == chars@.take(i as int),
        decreases k - i,
    {
        out.push(chars[i]);
        i = i + 1;
        assert(out@ =~= chars@.take(i as int));
    }
    crate::strings::append_str(&mut out, text);
    let mut j: usize = k;
    let ghost mid = out@;
    while j < chars.len()
        invariant
            k <= j <= chars@.len(),
            out@ == mid + chars@.subrange(k as int, j as int),
        decreases chars@.len() - j,
    {
        out.push(chars[j]);
        j = j + 1;
        assert(out@ =~= mid + chars@.subrange(k as int, j as int));
    }
    assert(chars@.subrange(k as int, chars@.len() as int) =~= chars@.skip(k as int));
    let text_chars = chars_of(text);
    let added = prefix_bytes(text_chars.as_slice(), text_chars.len());
    assert(text_chars@.take(text_chars@.len() as int) =~= text@);
    proof {
        lemma_byte_len_bound(text@);
    }
    let new_cursor = clamp_usize(cursor as u128 + added);
    (string_of(out.as_slice()), new_cursor)
}

/// The character before `cursor` deleted, and the cursor moved back over
/// it; nothing changes at the start.
pub fn delete_before(input: &str, cursor: usize) -> (r: (String, usize))
    ensures
        forall|k: int|
            is_boundary(input@, cursor as int, k) ==> if k > 0 {
                r.0@ == input@.take(k - 1) + input@.skip(k) && r.1 == byte_len(input@.take(k - 1))
            } else {
                r.0@ == input@ && r.1 == cursor
            },
{
    let chars = chars_of(input);
    let k = locate(chars.as_slice(), cursor);
    if k == 0 {
        return (string_of(chars.as_slice()), cursor);
    }
    let mut out: Vec<char> = Vec::new();
    let mut i: usize = 0;
    while i < k - 1
        invariant
            i <= k - 1,
            k <= chars@.len(),
            out@ == chars@.take(i as int),
        decreases k - 1 - i,
    {
        out.push(chars[i]);
        i = i + 1;
        assert(out@ =~= chars@.take(i as int));
    }
    let mut j: usize = k;
    let ghost mid = out@;
    while j < chars.len()
        invariant
            k <= j <= chars@.len(),
            out@ == mid + chars@.subrange(k as int, j as int),
        decreases chars@.len() - j,
    {
        out.push(chars[j]);
        j = j + 1;
        assert(out@ =~= mid + chars@.subrange(k as int, j as int));
    }
    assert(chars@.subrange(k as int, chars@.len() as int) =~= chars@.skip(k as int));
    proof {
        if exists|j: int| is_boundary(input@, cursor as int, j) {
            lemma_take_monotone(chars@, k - 1, k as int);
        }
    }
    let back = clamp_usize(prefix_bytes(chars.as_slice(), k - 1));
    (string_of(out.as_slice()), back)
}

} // verus!
