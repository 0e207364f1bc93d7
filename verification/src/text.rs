//! Operations on text that the conversion rules are built from.

use vstd::prelude::*;
use vstd::utf8::{encode_utf8, encode_utf8_decode_utf8};

verus! {

/// The characters of an optional string.
pub open spec fn opt_text(o: Option<String>) -> Option<Seq<char>> {
    match o {
        Some(s) => Some(s@),
        None => None,
    }
}

/// `s` with every occurrence of `from` replaced by `to`, scanning from the
/// left and never looking again at text that was already replaced. The empty
/// text occurs before each character and at the end.
pub open spec fn replace_all(s: Seq<char>, from: Seq<char>, to: Seq<char>) -> Seq<char>
    decreases s.len(),
{
    if from.len() == 0 {
        if s.len() == 0 {
            to
        } else {
            to + seq![s[0]] + replace_all(s.subrange(1, s.len() as int), from, to)
        }
    } else if s.len() < from.len() {
        s
    } else if s.subrange(0, from.len() as int) == from {
        to + replace_all(s.subrange(from.len() as int, s.len() as int), from, to)
    } else {
        seq![s[0]] + replace_all(s.subrange(1, s.len() as int), from, to)
    }
}

/// Whether `from` stands in `s` at position `at`.
pub open spec fn occurs(s: Seq<char>, from: Seq<char>, at: int) -> bool {
    0 <= at && at + from.len() <= s.len() && s.subrange(at, at + from.len()) == from
}

/// A text in which `from` occurs nowhere is left as it is.
pub proof fn lemma_replace_all_without_occurrence(s: Seq<char>, from: Seq<char>, to: Seq<char>)
    requires
        from.len() > 0,
        forall|at: int| !occurs(s, from, at),
    ensures
        replace_all(s, from, to) == s,
    decreases s.len(),
{
    if s.len() >= from.len() {
        assert(!occurs(s, from, 0));
        let rest = s.subrange(1, s.len() as int);
        assert forall|at: int| !occurs(rest, from, at) by {
            if occurs(rest, from, at) {
                assert(rest.subrange(at, at + from.len()) =~= s.subrange(at + 1, at + 1 + from.len()));
                assert(occurs(s, from, at + 1));
            }
        }
        lemma_replace_all_without_occurrence(rest, from, to);
        assert(seq![s[0]] + rest =~= s);
    }
}

/// The text of each string of `s`.
pub open spec fn texts(s: Seq<String>) -> Seq<Seq<char>> {
    Seq::new(s.len(), |i: int| s[i]@)
}

/// The texts of `parts` one after the other, with `sep` between each two.
pub open spec fn joined(parts: Seq<Seq<char>>, sep: Seq<char>) -> Seq<char>
    decreases parts.len(),
{
    if parts.len() == 0 {
        Seq::empty()
    } else if parts.len() == 1 {
        parts[0]
    } else {
        joined(parts.drop_last(), sep) + sep + parts.last()
    }
}

/// `std::string::String::push` appends one character to the string.
pub assume_specification[ String::push ](s: &mut String, c: char)
    ensures
        final(s)@ == old(s)@.push(c),
;

/// Whether two string slices hold the same characters.
pub fn same_text(a: &str, b: &str) -> (same: bool)
    ensures
        same == (a@ == b@),
{
    let x = a.as_bytes();
    let y = b.as_bytes();
    proof {
        encode_utf8_decode_utf8(a@);
        encode_utf8_decode_utf8(b@);
    }
    if x.len() != y.len() {
        return false;
    }
    let mut i: usize = 0;
    while i < x.len()
        invariant
            i <= x.len(),
            x.len() == y.len(),
            x@ == encode_utf8(a@),
            y@ == encode_utf8(b@),
            forall|j: int| 0 <= j < i ==> x@[j] == y@[j],
        decreases x.len() - i,
    {
        if x[i] != y[i] {
            return false;
        }
        i += 1;
    }
    assert(x@ =~= y@);
    true
}

/// Whether an optional string is present and holds exactly `expected`.
pub fn opt_text_is(o: &Option<String>, expected: &str) -> (same: bool)
    ensures
        same == (opt_text(*o) == Some(expected@)),
{
    match o {
        Some(s) => same_text(s.as_str(), expected),
        None => false,
    }
}

/// A copy of an optional string.
pub fn clone_opt_text(o: &Option<String>) -> (copy: Option<String>)
    ensures
        opt_text(copy) == opt_text(*o),
{
    match o {
        Some(s) => Some(s.clone()),
        None => None,
    }
}

/// The strings of `parts` one after the other, with `sep` between each two.
pub fn join(parts: &Vec<String>, sep: &str) -> (out: String)
    ensures
        out@ == joined(texts(parts@), sep@),
{
    let mut out = String::new();
    let mut i: usize = 0;
    while i < parts.len()
        invariant
            i <= parts.len(),
            out@ == joined(texts(parts@).take(i as int), sep@),
        decreases parts.len() - i,
    {
        let ghost done = texts(parts@).take(i as int);
        let ghost next = texts(parts@).take(i + 1);
        assert(next.drop_last() =~= done);
        assert(next.last() == parts@[i as int]@);
        if i > 0 {
            out.append(sep);
        } else {
            assert(out@ + parts@[i as int]@ =~= parts@[i as int]@);
        }
        out.append(parts[i].as_str());
        i += 1;
    }
    assert(texts(parts@).take(parts.len() as int) =~= texts(parts@));
    out
}

/// The characters of `s`, in order.
pub fn chars_of(s: &str) -> (v: Vec<char>)
    ensures
        v@ == s@,
{
    let mut v: Vec<char> = Vec::new();
    let it = s.chars();
    for c in iter: it
        invariant
            iter.seq() == s@,
            v@ == iter.seq().take(iter.index()),
    {
        v.push(c);
    }
    v
}

/// Whether `pattern` stands in `text` at position `at`.
fn occurs_at(text: &Vec<char>, at: usize, pattern: &Vec<char>) -> (found: bool)
    requires
        at <= text.len(),
    ensures
        found == occurs(text@, pattern@, at as int),
{
    if pattern.len() > text.len() - at {
        return false;
    }
    let mut k: usize = 0;
    while k < pattern.len()
        invariant
            k <= pattern.len(),
            at + pattern.len() <= text.len(),
            forall|j: int| 0 <= j < k ==> text@[at + j] == pattern@[j],
        decreases pattern.len() - k,
    {
        if text[at + k] != pattern[k] {
            assert(text@.subrange(at as int, at + pattern.len())[k as int] != pattern@[k as int]);
            return false;
        }
        k += 1;
    }
    assert(text@.subrange(at as int, at + pattern.len()) =~= pattern@);
    true
}

/// A copy of `s` with `to` before each character and at the end.
fn interleave(s: &str, to: &str) -> (out: String)
    ensures
        out@ == replace_all(s@, Seq::empty(), to@),
{
    let text = chars_of(s);
    let mut out = String::new();
    let mut i: usize = 0;
    assert(s@.subrange(0, s@.len() as int) =~= s@);
    while i < text.len()
        invariant
            i <= text.len(),
            text@ == s@,
            replace_all(s@, Seq::empty(), to@) == out@ + replace_all(
                s@.subrange(i as int, s@.len() as int),
                Seq::empty(),
                to@,
            ),
        decreases text.len() - i,
    {
        let ghost rest = s@.subrange(i as int, s@.len() as int);
        assert(rest.subrange(1, rest.len() as int) =~= s@.subrange(i + 1, s@.len() as int));
        let ghost before = out@;
        out.append(to);
        out.push(text[i]);
        assert(out@ =~= before + (to@ + seq![rest[0]]));
        assert(before + (to@ + seq![rest[0]] + replace_all(
            rest.subrange(1, rest.len() as int),
            Seq::empty(),
            to@,
        )) =~= out@ + replace_all(rest.subrange(1, rest.len() as int), Seq::empty(), to@));
        i += 1;
    }
    out.append(to);
    out
}

/// A copy of `s` with every occurrence of `from` replaced by `to`.
pub fn replace(s: &str, from: &str, to: &str) -> (out: String)
    ensures
        out@ == replace_all(s@, from@, to@),
{
    let text = chars_of(s);
    let pattern = chars_of(from);
    if pattern.len() == 0 {
        assert(from@ =~= Seq::empty());
        return interleave(s, to);
    }
    let mut out = String::new();
    let mut i: usize = 0;
    assert(s@.subrange(0, s@.len() as int) =~= s@);
    while i < text.len()
        invariant
            i <= text.len(),
            text@ == s@,
            pattern@ == from@,
            from@.len() > 0,
            replace_all(s@, from@, to@) == out@ + replace_all(
                s@.subrange(i as int, s@.len() as int),
                from@,
                to@,
            ),
        decreases text.len() - i,
    {
        let ghost rest = s@.subrange(i as int, s@.len() as int);
        if occurs_at(&text, i, &pattern) {
            assert(rest.subrange(0, from@.len() as int) =~= from@);
            assert(rest.subrange(from@.len() as int, rest.len() as int) =~= s@.subrange(
                i + from@.len(),
                s@.len() as int,
            ));
            out.append(to);
            i += pattern.len();
        } else {
            assert(rest.len() >= from@.len() ==> rest.subrange(0, from@.len() as int)
                =~= s@.subrange(i as int, i + from@.len()));
            assert(rest.subrange(1, rest.len() as int) =~= s@.subrange(i + 1, s@.len() as int));
            assert(rest =~= seq![rest[0]] + rest.subrange(1, rest.len() as int));
            out.push(text[i]);
            i += 1;
        }
    }
    out
}

} // verus!
