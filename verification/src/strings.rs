//! Small verified helpers on strings, stated over their character sequences.

use vstd::prelude::*;
use vstd::string::{StrSliceExecFns, StringExecFns};

verus! {

/// Whether two string slices hold the same characters.
pub fn str_equal(a: &str, b: &str) -> (same: bool)
    ensures
        same == (a@ == b@),
{
    let x = a.as_bytes();
    let y = b.as_bytes();
    proof {
        vstd::utf8::encode_utf8_decode_utf8(a@);
        vstd::utf8::encode_utf8_decode_utf8(b@);
    }
    if x.len() != y.len() {
        return false;
    }
    let mut i: usize = 0;
    while i < x.len()
        invariant
            i <= x.len(),
            x.len() == y.len(),
            x@ == vstd::utf8::encode_utf8(a@),
            y@ == vstd::utf8::encode_utf8(b@),
            forall|k: int| 0 <= k < i ==> x@[k] == y@[k],
        decreases x.len() - i,
    {
        if x[i] != y[i] {
            return false;
        }
        i += 1;
    }
    assert(x@ =~= y@);
    true
}

/// Whether the bytes of `text` hold a zero byte.
pub fn has_nul_byte(text: &str) -> (found: bool)
    ensures
        found == vstd::utf8::encode_utf8(text@).contains(0u8),
{
    let bytes = text.as_bytes();
    let mut i: usize = 0;
    while i < bytes.len()
        invariant
            i <= bytes.len(),
            bytes@ == vstd::utf8::encode_utf8(text@),
            forall|k: int| 0 <= k < i ==> bytes@[k] != 0u8,
        decreases bytes.len() - i,
    {
        if bytes[i] == 0 {
            return true;
        }
        i += 1;
    }
    false
}

/// Whether `character` is white space, as Unicode defines it by the property `White_Space`.
pub open spec fn is_white_space(character: char) -> bool {
    let code = character as u32;
    ||| 0x09 <= code <= 0x0d
    ||| code == 0x20
    ||| code == 0x85
    ||| code == 0xa0
    ||| code == 0x1680
    ||| 0x2000 <= code <= 0x200a
    ||| code == 0x2028
    ||| code == 0x2029
    ||| code == 0x202f
    ||| code == 0x205f
    ||| code == 0x3000
}

/// The place of the first character of `text` from `from` on that is no white space, or the
/// length of `text` if there is none.
pub open spec fn content_start(text: Seq<char>, from: int) -> int
    decreases text.len() - from,
{
    if 0 <= from < text.len() && is_white_space(text[from]) {
        content_start(text, from + 1)
    } else {
        from
    }
}

/// The place behind the last character of `text` before `until` that is no white space, or
/// zero if there is none.
pub open spec fn content_end(text: Seq<char>, until: int) -> int
    decreases until,
{
    if 0 < until <= text.len() && is_white_space(text[until - 1]) {
        content_end(text, until - 1)
    } else {
        until
    }
}

/// `text` without the white space at its start and at its end.
pub open spec fn trimmed(text: Seq<char>) -> Seq<char> {
    let start = content_start(text, 0);
    if start >= text.len() {
        Seq::empty()
    } else {
        text.subrange(start, content_end(text, text.len() as int))
    }
}

/// Whether `character` is white space. See [`is_white_space`].
pub fn white_space(character: char) -> (white: bool)
    ensures
        white == is_white_space(character),
{
    let code = character as u32;
    (0x09 <= code && code <= 0x0d) || code == 0x20 || code == 0x85 || code == 0xa0 || code
        == 0x1680 || (0x2000 <= code && code <= 0x200a) || code == 0x2028 || code == 0x2029
        || code == 0x202f || code == 0x205f || code == 0x3000
}

/// The characters of `text`, one by one.
pub fn characters(text: &str) -> (list: Vec<char>)
    ensures
        list@ == text@,
{
    let mut list: Vec<char> = Vec::new();
    for c in it: text.chars()
        invariant
            it.seq() == text@,
            list@ == it.seq().take(it.index() as int),
    {
        list.push(c);
        assert(list@ =~= it.seq().take(it.index() + 1));
    }
    assert(list@ =~= text@);
    list
}

/// `text` without the white space at its start and at its end. See [`trimmed`].
pub fn trim(text: &str) -> (kept: &str)
    ensures
        kept@ == trimmed(text@),
{
    let list = characters(text);
    let mut start: usize = 0;
    while start < list.len() && white_space(list[start])
        invariant
            start <= list.len(),
            list@ == text@,
            content_start(text@, 0) == content_start(text@, start as int),
        decreases list.len() - start,
    {
        start += 1;
    }
    if start == list.len() {
        let kept = text.substring_char(0, 0);
        assert(kept@ =~= Seq::empty());
        return kept;
    }
    let mut end: usize = list.len();
    while end > start && white_space(list[end - 1])
        invariant
            start < end <= list.len(),
            !is_white_space(list@[start as int]),
            list@ == text@,
            content_end(text@, text@.len() as int) == content_end(text@, end as int),
        decreases end,
    {
        end -= 1;
    }
    text.substring_char(start, end)
}

/// The parts in order, with `separator` between each two neighbours.
pub open spec fn joined(parts: Seq<Seq<char>>, separator: Seq<char>) -> Seq<char>
    decreases parts.len(),
{
    if parts.len() == 0 {
        Seq::empty()
    } else if parts.len() == 1 {
        parts[0]
    } else {
        joined(parts.drop_last(), separator) + separator + parts.last()
    }
}

/// The parts in order, one directly after the other.
pub open spec fn concatenated(parts: Seq<Seq<char>>) -> Seq<char>
    decreases parts.len(),
{
    if parts.len() == 0 {
        Seq::empty()
    } else {
        concatenated(parts.drop_last()) + parts.last()
    }
}

/// Joining two non-empty lists one after the other is joining each and putting the separator
/// between the two results.
pub proof fn lemma_joined_append(front: Seq<Seq<char>>, back: Seq<Seq<char>>, separator: Seq<char>)
    requires
        front.len() > 0,
        back.len() > 0,
    ensures
        joined(front + back, separator) == joined(front, separator) + separator + joined(
            back,
            separator,
        ),
    decreases back.len(),
{
    let all = front + back;
    assert(all.last() == back.last());
    if back.len() == 1 {
        assert(all.drop_last() =~= front);
    } else {
        assert(all.drop_last() =~= front + back.drop_last());
        lemma_joined_append(front, back.drop_last(), separator);
        assert(joined(all, separator) =~= joined(front, separator) + separator + joined(
            back,
            separator,
        ));
    }
}

/// The characters of every string of `parts`, in order.
pub open spec fn views_of(parts: Seq<String>) -> Seq<Seq<char>> {
    Seq::new(parts.len(), |i: int| parts[i]@)
}

/// All of `parts` in one string, one directly after the other.
pub fn concat_all(parts: &Vec<String>) -> (whole: String)
    ensures
        whole@ == concatenated(views_of(parts@)),
{
    let mut whole = String::new();
    let mut i: usize = 0;
    while i < parts.len()
        invariant
            i <= parts.len(),
            whole@ == concatenated(views_of(parts@).take(i as int)),
        decreases parts.len() - i,
    {
        whole.append(parts[i].as_str());
        proof {
            let done = views_of(parts@).take(i + 1);
            assert(done.drop_last() =~= views_of(parts@).take(i as int));
            assert(done.last() == parts@[i as int]@);
        }
        i += 1;
    }
    assert(views_of(parts@).take(parts.len() as int) =~= views_of(parts@));
    whole
}

} // verus!
