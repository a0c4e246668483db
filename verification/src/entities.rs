//! The clean-up of a document before it is parsed: a reference to an entity that the document
//! does not declare, such as `&true;`, becomes a constant element, `<constant>true</constant>`.
//! The four escapes that the markup itself needs stay as they are.

use vstd::prelude::*;

verus! {

/// Whether `byte` is one of the letters `a` to `z`.
pub open spec fn is_lowercase(byte: u8) -> bool {
    0x61 <= byte <= 0x7a
}

/// How many letters `a` to `z` stand in `text` from `from` on, one directly after the other.
pub open spec fn name_length(text: Seq<u8>, from: int) -> nat
    decreases text.len() - from,
{
    if 0 <= from < text.len() && is_lowercase(text[from]) {
        1 + name_length(text, from + 1)
    } else {
        0
    }
}

/// The name `amp`.
pub open spec fn amp() -> Seq<u8> {
    seq![0x61u8, 0x6du8, 0x70u8]
}

/// The name `quot`.
pub open spec fn quot() -> Seq<u8> {
    seq![0x71u8, 0x75u8, 0x6fu8, 0x74u8]
}

/// The name `gt`.
pub open spec fn gt() -> Seq<u8> {
    seq![0x67u8, 0x74u8]
}

/// The name `lt`.
pub open spec fn lt() -> Seq<u8> {
    seq![0x6cu8, 0x74u8]
}

/// Whether `name` is one of the escapes of the markup: `amp`, `quot`, `gt` or `lt`.
pub open spec fn is_escape(name: Seq<u8>) -> bool {
    name == amp() || name == quot() || name == gt() || name == lt()
}

/// The name of the entity that a reference at `at` names: the letters behind the `&`.
pub open spec fn name_at(text: Seq<u8>, at: int) -> Seq<u8> {
    text.subrange(at + 1, at + 1 + name_length(text, at + 1))
}

/// Whether a reference that is to be replaced starts at `at`: an `&`, then one or more of the
/// letters `a` to `z`, then a `;`, where the letters are not the name of an escape.
pub open spec fn reference_at(text: Seq<u8>, at: int) -> bool {
    let end = at + 1 + name_length(text, at + 1);
    &&& 0 <= at < text.len()
    &&& text[at] == 0x26u8
    &&& name_length(text, at + 1) >= 1
    &&& end < text.len()
    &&& text[end] == 0x3bu8
    &&& !is_escape(name_at(text, at))
}

/// `<constant>`.
pub open spec fn opening() -> Seq<u8> {
    seq![0x3cu8, 0x63u8, 0x6fu8, 0x6eu8, 0x73u8, 0x74u8, 0x61u8, 0x6eu8, 0x74u8, 0x3eu8]
}

/// `</constant>`.
pub open spec fn closing() -> Seq<u8> {
    seq![0x3cu8, 0x2fu8, 0x63u8, 0x6fu8, 0x6eu8, 0x73u8, 0x74u8, 0x61u8, 0x6eu8, 0x74u8, 0x3eu8]
}

/// `text` from `from` on, with every reference replaced by a constant element that holds the
/// name of the entity. The text is read from left to right, and reading goes on behind a
/// reference that was replaced.
pub open spec fn replaced_from(text: Seq<u8>, from: int) -> Seq<u8>
    decreases text.len() - from,
{
    if from < 0 || from >= text.len() {
        Seq::empty()
    } else if reference_at(text, from) {
        opening() + name_at(text, from) + closing() + replaced_from(
            text,
            from + name_length(text, from + 1) + 2,
        )
    } else {
        seq![text[from]] + replaced_from(text, from + 1)
    }
}

/// The whole of `text` with every reference replaced.
pub open spec fn replaced(text: Seq<u8>) -> Seq<u8> {
    replaced_from(text, 0)
}

/// Whether `name` is one of the escapes of the markup.
fn escape(name: &[u8]) -> (found: bool)
    ensures
        found == is_escape(name@),
{
    let n = name.len();
    if n == 2 {
        let found = name[1] == 0x74 && (name[0] == 0x67 || name[0] == 0x6c);
        assert(found == (name@ =~= gt() || name@ =~= lt()));
        found
    } else if n == 3 {
        let found = name[0] == 0x61 && name[1] == 0x6d && name[2] == 0x70;
        assert(found == (name@ =~= amp()));
        found
    } else if n == 4 {
        let found = name[0] == 0x71 && name[1] == 0x75 && name[2] == 0x6f && name[3] == 0x74;
        assert(found == (name@ =~= quot()));
        found
    } else {
        false
    }
}

/// Adds `bytes` to the end of `out`.
fn push_all(out: &mut Vec<u8>, bytes: &[u8])
    ensures
        final(out)@ == old(out)@ + bytes@,
{
    let mut i: usize = 0;
    while i < bytes.len()
        invariant
            i <= bytes.len(),
            out@ == old(out)@ + bytes@.take(i as int),
        decreases bytes.len() - i,
    {
        out.push(bytes[i]);
        assert(bytes@.take(i + 1) =~= bytes@.take(i as int).push(bytes@[i as int]));
        i += 1;
    }
    assert(bytes@.take(bytes.len() as int) =~= bytes@);
}

/// Adds `<constant>` to the end of `out`.
fn push_opening(out: &mut Vec<u8>)
    ensures
        final(out)@ == old(out)@ + opening(),
{
    out.push(0x3c);
    out.push(0x63);
    out.push(0x6f);
    out.push(0x6e);
    out.push(0x73);
    out.push(0x74);
    out.push(0x61);
    out.push(0x6e);
    out.push(0x74);
    out.push(0x3e);
    assert(out@ =~= old(out)@ + opening());
}

/// Adds `</constant>` to the end of `out`.
fn push_closing(out: &mut Vec<u8>)
    ensures
        final(out)@ == old(out)@ + closing(),
{
    out.push(0x3c);
    out.push(0x2f);
    out.push(0x63);
    out.push(0x6f);
    out.push(0x6e);
    out.push(0x73);
    out.push(0x74);
    out.push(0x61);
    out.push(0x6e);
    out.push(0x74);
    out.push(0x3e);
    assert(out@ =~= old(out)@ + closing());
}

/// Where the letters that start at `from` end: the place of the first byte from there on that
/// is no letter `a` to `z`, or the end of `content`.
fn name_end(content: &[u8], from: usize) -> (end: usize)
    requires
        from <= content.len(),
    ensures
        from <= end <= content.len(),
        end - from == name_length(content@, from as int),
{
    let mut end: usize = from;
    while end < content.len() && 0x61 <= content[end] && content[end] <= 0x7a
        invariant
            from <= end <= content.len(),
            name_length(content@, from as int) == (end - from) + name_length(
                content@,
                end as int,
            ),
        decreases content.len() - end,
    {
        end += 1;
    }
    end
}

/// Replaces every reference to an undeclared entity in `content` by a constant element. See
/// [`replaced`].
pub fn replace_entities(content: &[u8]) -> (clean: Vec<u8>)
    ensures
        clean@ == replaced(content@),
{
    let mut clean: Vec<u8> = Vec::new();
    let mut i: usize = 0;
    while i < content.len()
        invariant
            i <= content.len(),
            replaced(content@) == clean@ + replaced_from(content@, i as int),
        decreases content.len() - i,
    {
        let end = name_end(content, i + 1);
        let closed = content[i] == 0x26 && end > i + 1 && end < content.len() && content[end]
            == 0x3b;
        assert(content@.subrange(i + 1, end as int) == name_at(content@, i as int));
        if closed && !escape(vstd::slice::slice_subrange(content, i + 1, end)) {
            let name = vstd::slice::slice_subrange(content, i + 1, end);
            let ghost before = clean@;
            push_opening(&mut clean);
            push_all(&mut clean, name);
            push_closing(&mut clean);
            proof {
                assert(name@ == name_at(content@, i as int));
                assert(reference_at(content@, i as int));
                assert(clean@ + replaced_from(content@, end + 1) =~= before + (opening()
                    + name_at(content@, i as int) + closing() + replaced_from(
                    content@,
                    end + 1,
                )));
            }
            i = end + 1;
        } else {
            proof {
                assert(!reference_at(content@, i as int));
                assert(clean@.push(content@[i as int]) + replaced_from(content@, i + 1)
                    =~= clean@ + (seq![content@[i as int]] + replaced_from(content@, i + 1)));
            }
            clean.push(content[i]);
            i += 1;
        }
    }
    clean
}

} // verus!
