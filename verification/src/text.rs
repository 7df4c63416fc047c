//! Text helpers over `Seq<char>` models: conversion between strings and
//! character vectors, substring search, replacement and trimming.

use vstd::prelude::*;

verus! {

/// `String::push` appends one character to the end of the string.
pub assume_specification[ String::push ](s: &mut String, c: char)
    ensures
        final(s)@ == old(s)@.push(c),
;

/// The characters of `s`, in order.
pub fn chars_of(s: &str) -> (v: Vec<char>)
    ensures
        v@ == s@,
{
    let mut v: Vec<char> = Vec::new();
    for c in it: s.chars()
        invariant
            v@ == it.seq().take(it.index() as int),
            it.seq() == s@,
    {
        v.push(c);
    }
    v
}

/// The string made of the characters of `v`, in order.
pub fn text_of(v: &Vec<char>) -> (s: String)
    ensures
        s@ == v@,
{
    let mut s = String::new();
    let mut i: usize = 0;
    while i < v.len()
        invariant
            i <= v.len(),
            s@ == v@.take(i as int),
        decreases v.len() - i,
    {
        s.push(v[i]);
        i += 1;
        assert(v@.take(i as int) == v@.take(i as int - 1).push(v@[i as int - 1]));
    }
    assert(v@.take(v.len() as int) == v@);
    s
}

/// Whether `needle` stands in `hay` at position `i`.
pub open spec fn occurs_at(hay: Seq<char>, needle: Seq<char>, i: int) -> bool {
    0 <= i && i + needle.len() <= hay.len() && hay.subrange(i, i + needle.len()) == needle
}

/// Whether `needle` stands somewhere in `hay`.
pub open spec fn occurs_in(hay: Seq<char>, needle: Seq<char>) -> bool {
    exists|i: int| occurs_at(hay, needle, i)
}

/// Whether `needle` stands in `hay` at position `i`.
pub fn matches_at(hay: &Vec<char>, needle: &Vec<char>, i: usize) -> (r: bool)
    ensures
        r == occurs_at(hay@, needle@, i as int),
{
    if needle.len() > hay.len() || i > hay.len() - needle.len() {
        return false;
    }
    let mut j: usize = 0;
    while j < needle.len()
        invariant
            j <= needle.len(),
            i + needle.len() <= hay.len(),
            forall|k: int| 0 <= k < j ==> hay@[i + k] == needle@[k],
        decreases needle.len() - j,
    {
        if hay[i + j] != needle[j] {
            proof {
                let cut = hay@.subrange(i as int, i + needle.len());
                assert(cut[j as int] == hay@[i + j]);
            }
            return false;
        }
        j += 1;
    }
    assert(hay@.subrange(i as int, i + needle.len()) =~= needle@);
    true
}

/// Whether `needle` stands somewhere in `hay`.
pub fn contains_chars(hay: &Vec<char>, needle: &Vec<char>) -> (r: bool)
    ensures
        r == occurs_in(hay@, needle@),
{
    if needle.len() > hay.len() {
        return false;
    }
    let last: usize = hay.len() - needle.len();
    let mut i: usize = 0;
    while i < last
        invariant
            i <= last,
            last == hay.len() - needle.len(),
            forall|k: int| 0 <= k < i ==> !occurs_at(hay@, needle@, k),
        decreases last - i,
    {
        if matches_at(hay, needle, i) {
            return true;
        }
        i += 1;
    }
    matches_at(hay, needle, last)
}

/// Whether `needle` stands somewhere in `hay`.
pub fn contains(hay: &str, needle: &str) -> (r: bool)
    ensures
        r == occurs_in(hay@, needle@),
{
    let h = chars_of(hay);
    let n = chars_of(needle);
    contains_chars(&h, &n)
}

/// Whether the two strings hold the same characters.
pub fn same_text(a: &str, b: &str) -> (r: bool)
    ensures
        r == (a@ == b@),
{
    let x = chars_of(a);
    let y = chars_of(b);
    if x.len() != y.len() {
        return false;
    }
    let r = matches_at(&x, &y, 0);
    assert(x@.subrange(0, x@.len() as int) == x@);
    r
}

/// `a` followed by `b`.
pub fn joined(a: &str, b: &str) -> (s: String)
    ensures
        s@ == a@ + b@,
{
    let mut s = a.to_owned();
    s.append(b);
    s
}

/// `s` with every occurrence of `from` replaced by `to`, scanning from the
/// left and resuming after each replaced occurrence. An empty `from`
/// replaces nothing.
pub open spec fn replaced(s: Seq<char>, from: Seq<char>, to: Seq<char>) -> Seq<char>
    decreases s.len(),
{
    if from.len() == 0 || s.len() < from.len() {
        s
    } else if s.subrange(0, from.len() as int) == from {
        to + replaced(s.subrange(from.len() as int, s.len() as int), from, to)
    } else {
        seq![s[0]] + replaced(s.subrange(1, s.len() as int), from, to)
    }
}

/// `s` with every occurrence of `from` replaced by `to`.
pub fn replace_chars(s: &Vec<char>, from: &Vec<char>, to: &Vec<char>) -> (out: Vec<char>)
    ensures
        out@ == replaced(s@, from@, to@),
{
    let mut out: Vec<char> = Vec::new();
    let mut i: usize = 0;
    assert(s@.subrange(0, s.len() as int) == s@);
    assert(out@ + replaced(s@, from@, to@) == replaced(s@, from@, to@));
    while i < s.len()
        invariant
            i <= s.len(),
            out@ + replaced(s@.subrange(i as int, s.len() as int), from@, to@) == replaced(
                s@,
                from@,
                to@,
            ),
        decreases s.len() - i,
    {
        let ghost rest = s@.subrange(i as int, s.len() as int);
        let ghost before = out@;
        if from.len() > 0 && matches_at(s, from, i) {
            let mut j: usize = 0;
            while j < to.len()
                invariant
                    j <= to.len(),
                    out@ == before + to@.take(j as int),
                decreases to.len() - j,
            {
                out.push(to[j]);
                j += 1;
                assert(to@.take(j as int) == to@.take(j as int - 1).push(to@[j as int - 1]));
            }
            proof {
                assert(to@.take(to.len() as int) == to@);
                assert(rest.subrange(0, from.len() as int) == s@.subrange(
                    i as int,
                    i + from.len(),
                ));
                assert(rest.subrange(from.len() as int, rest.len() as int) == s@.subrange(
                    i + from.len(),
                    s.len() as int,
                ));
                assert(before + to@ + replaced(
                    s@.subrange(i + from.len(), s.len() as int),
                    from@,
                    to@,
                ) == before + (to@ + replaced(
                    s@.subrange(i + from.len(), s.len() as int),
                    from@,
                    to@,
                )));
            }
            i += from.len();
        } else {
            out.push(s[i]);
            proof {
                let tail = s@.subrange(i + 1, s.len() as int);
                assert(rest.subrange(1, rest.len() as int) == tail);
                assert(rest == seq![s@[i as int]] + tail);
                if from.len() > 0 && rest.len() >= from.len() {
                    assert(rest.subrange(0, from.len() as int) == s@.subrange(
                        i as int,
                        i + from.len(),
                    ));
                }
                assert(replaced(rest, from@, to@) == seq![s@[i as int]] + replaced(
                    tail,
                    from@,
                    to@,
                ));
                assert(before.push(s@[i as int]) + replaced(tail, from@, to@) == before + (
                seq![s@[i as int]] + replaced(tail, from@, to@)));
            }
            i += 1;
        }
    }
    assert(s@.subrange(s.len() as int, s.len() as int) == Seq::<char>::empty());
    assert(out@ + Seq::<char>::empty() == out@);
    out
}

/// `s` with every occurrence of `from` replaced by `to`.
pub fn replace_all(s: &str, from: &str, to: &str) -> (out: String)
    ensures
        out@ == replaced(s@, from@, to@),
{
    let out = replace_chars(&chars_of(s), &chars_of(from), &chars_of(to));
    text_of(&out)
}

/// Whether `c` has the Unicode property White_Space, as `char::is_whitespace`
/// answers.
pub uninterp spec fn is_white_space(c: char) -> bool;

/// `char::is_whitespace` tells whether the character has the Unicode property
/// White_Space; the answer depends on the character alone.
pub assume_specification[ char::is_whitespace ](c: char) -> (r: bool)
    ensures
        r == is_white_space(c),
;

/// `s` without its leading white space.
pub open spec fn trimmed_start(s: Seq<char>) -> Seq<char>
    decreases s.len(),
{
    if s.len() > 0 && is_white_space(s[0]) {
        trimmed_start(s.drop_first())
    } else {
        s
    }
}

/// `s` without its trailing white space.
pub open spec fn trimmed_end(s: Seq<char>) -> Seq<char>
    decreases s.len(),
{
    if s.len() > 0 && is_white_space(s.last()) {
        trimmed_end(s.drop_last())
    } else {
        s
    }
}

/// `s` without leading and trailing white space.
pub open spec fn trimmed(s: Seq<char>) -> Seq<char> {
    trimmed_end(trimmed_start(s))
}

/// `s` without leading and trailing white space.
pub fn trim_chars(s: &Vec<char>) -> (out: Vec<char>)
    ensures
        out@ == trimmed(s@),
{
    let mut lo: usize = 0;
    assert(s@.subrange(0, s.len() as int) == s@);
    while lo < s.len() && s[lo].is_whitespace()
        invariant
            lo <= s.len(),
            trimmed_start(s@) == trimmed_start(s@.subrange(lo as int, s.len() as int)),
        decreases s.len() - lo,
    {
        proof {
            let rest = s@.subrange(lo as int, s.len() as int);
            assert(rest.drop_first() == s@.subrange(lo + 1, s.len() as int));
        }
        lo += 1;
    }
    let ghost body = s@.subrange(lo as int, s.len() as int);
    assert(trimmed_start(s@) == body);
    let mut hi: usize = s.len();
    while hi > lo && s[hi - 1].is_whitespace()
        invariant
            lo <= hi <= s.len(),
            body == s@.subrange(lo as int, s.len() as int),
            trimmed_end(body) == trimmed_end(s@.subrange(lo as int, hi as int)),
        decreases hi - lo,
    {
        proof {
            let part = s@.subrange(lo as int, hi as int);
            assert(part.drop_last() == s@.subrange(lo as int, hi - 1));
        }
        hi -= 1;
    }
    assert(trimmed_end(body) == s@.subrange(lo as int, hi as int));
    let mut out: Vec<char> = Vec::new();
    let mut i: usize = lo;
    while i < hi
        invariant
            lo <= i <= hi <= s.len(),
            out@ == s@.subrange(lo as int, i as int),
        decreases hi - i,
    {
        out.push(s[i]);
        i += 1;
        assert(s@.subrange(lo as int, i as int) == s@.subrange(lo as int, i - 1).push(
            s@[i - 1],
        ));
    }
    out
}

/// `s` without leading and trailing white space.
pub fn trim(s: &str) -> (out: String)
    ensures
        out@ == trimmed(s@),
{
    text_of(&trim_chars(&chars_of(s)))
}

/// The lower-case form of `s`, as `str::to_lowercase` gives it.
pub uninterp spec fn lowercase_of(s: Seq<char>) -> Seq<char>;

/// `str::to_lowercase` returns the lower-case equivalent of the string, by
/// the Unicode rules; the result depends on the characters alone.
pub assume_specification[ str::to_lowercase ](s: &str) -> (r: String)
    ensures
        r@ == lowercase_of(s@),
;

/// The field name that stands for a table label: the label trimmed, in lower
/// case, with each space replaced by an underscore.
pub open spec fn field_name_of(label: Seq<char>) -> Seq<char> {
    replaced(lowercase_of(trimmed(label)), seq![' '], seq!['_'])
}

/// The field name that stands for a table label.
pub fn field_name(label: &str) -> (name: String)
    ensures
        name@ == field_name_of(label@),
{
    let lower = trim(label).to_lowercase();
    let mut space: Vec<char> = Vec::new();
    space.push(' ');
    let mut underscore: Vec<char> = Vec::new();
    underscore.push('_');
    assert(space@ == seq![' ']);
    assert(underscore@ == seq!['_']);
    text_of(&replace_chars(&chars_of(lower.as_str()), &space, &underscore))
}

/// Replacing a character by another changes each occurrence of it and
/// nothing else.
pub proof fn replaced_character_by_character(s: Seq<char>, a: char, b: char)
    ensures
        replaced(s, seq![a], seq![b]).len() == s.len(),
        forall|i: int|
            0 <= i < s.len() ==> #[trigger] replaced(s, seq![a], seq![b])[i] == (if s[i] == a {
                b
            } else {
                s[i]
            }),
    decreases s.len(),
{
    if s.len() > 0 {
        let rest = s.subrange(1, s.len() as int);
        replaced_character_by_character(rest, a, b);
        let tail = replaced(rest, seq![a], seq![b]);
        let head = s.subrange(0, 1);
        assert(head[0] == s[0]);
        if head == seq![a] {
            assert(seq![a][0] == a);
            assert(replaced(s, seq![a], seq![b]) == seq![b] + tail);
        } else {
            if s[0] == a {
                assert(head =~= seq![a]);
            }
            assert(replaced(s, seq![a], seq![b]) == seq![s[0]] + tail);
        }
        assert forall|i: int| 0 <= i < s.len() implies #[trigger] replaced(
            s,
            seq![a],
            seq![b],
        )[i] == (if s[i] == a {
            b
        } else {
            s[i]
        }) by {
            if i > 0 {
                assert(rest[i - 1] == s[i]);
                assert(replaced(s, seq![a], seq![b])[i] == tail[i - 1]);
            }
        }
    }
}

/// A field name holds no space, and has as many characters as the label,
/// trimmed and in lower case.
pub proof fn field_name_holds_no_space(label: Seq<char>)
    ensures
        !field_name_of(label).contains(' '),
        field_name_of(label).len() == lowercase_of(trimmed(label)).len(),
{
    let lower = lowercase_of(trimmed(label));
    replaced_character_by_character(lower, ' ', '_');
    if field_name_of(label).contains(' ') {
        let i = choose|i: int|
            0 <= i < field_name_of(label).len() && field_name_of(label)[i] == ' ';
        assert(replaced(lower, seq![' '], seq!['_'])[i] == ' ');
    }
}

/// Whether `list` holds a string with the characters of `s`.
pub fn holds_text(list: &Vec<String>, s: &str) -> (r: bool)
    ensures
        r == list.deep_view().contains(s@),
{
    let mut i: usize = 0;
    while i < list.len()
        invariant
            i <= list.len(),
            forall|k: int| 0 <= k < i ==> list.deep_view()[k] != s@,
        decreases list.len() - i,
    {
        assert(list.deep_view()[i as int] == list[i as int]@);
        if same_text(list[i].as_str(), s) {
            return true;
        }
        i += 1;
    }
    false
}

} // verus!
