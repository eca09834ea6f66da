//! Conversions between strings and character sequences, and the rendering
//! of lists in messages.

use crate::trusted::{char_debug_text, debug_char, debug_str, str_debug_text};
use vstd::prelude::*;

verus! {

/// The parts of a list, separated by a comma and a space.
pub open spec fn joined(parts: Seq<Seq<char>>) -> Seq<char>
    decreases parts.len(),
{
    if parts.len() == 0 {
        Seq::empty()
    } else if parts.len() == 1 {
        parts[0]
    } else {
        joined(parts.drop_last()) + ", "@ + parts.last()
    }
}

/// A list as it is shown in a message: its parts, separated by commas, in
/// square brackets.
pub open spec fn bracketed(parts: Seq<Seq<char>>) -> Seq<char> {
    "["@ + joined(parts) + "]"@
}

/// How a list of strings is shown: each string in its quoted form.
pub open spec fn strings_text(items: Seq<Seq<char>>) -> Seq<char> {
    bracketed(items.map_values(|s: Seq<char>| str_debug_text(s)))
}

/// How a list of characters is shown: each character in its quoted form.
pub open spec fn chars_text(items: Seq<char>) -> Seq<char> {
    bracketed(items.map_values(|c: char| char_debug_text(c)))
}

/// The characters of a string, in order.
pub fn chars_of(s: &str) -> (v: Vec<char>)
    ensures
        v@ == s@,
{
    let mut v: Vec<char> = Vec::new();
    for c in it: s.chars()
        invariant
            it.seq() == s@,
            v@ == s@.take(it.index() as int),
    {
        v.push(c);
        assert(v@ =~= s@.take(it.index() + 1));
    }
    assert(v@ =~= s@);
    v
}

/// The string made of the characters of `v` from index `from` up to, not
/// including, index `to`.
pub fn span_of(v: &Vec<char>, from: usize, to: usize) -> (s: String)
    requires
        from <= to <= v.len(),
    ensures
        s@ == v@.subrange(from as int, to as int),
{
    let mut s = String::new();
    let mut i: usize = from;
    while i < to
        invariant
            from <= i <= to <= v.len(),
            s@ == v@.subrange(from as int, i as int),
        decreases to - i,
    {
        s.push(v[i]);
        i += 1;
        assert(s@ =~= v@.subrange(from as int, i as int));
    }
    s
}

/// The string made of all the characters of `v`.
pub fn string_of(v: &Vec<char>) -> (s: String)
    ensures
        s@ == v@,
{
    let s = span_of(v, 0, v.len());
    assert(s@ =~= v@);
    s
}

/// The text made of `head` and `rest`, in this order.
pub fn headed(head: &str, rest: &str) -> (s: String)
    ensures
        s@ == head@ + rest@,
{
    let mut s: String = head.to_owned();
    s.append(rest);
    s
}

/// The text made of `head`, `inner` and `tail`, in this order.
pub fn enclosed(head: &str, inner: &str, tail: &str) -> (s: String)
    ensures
        s@ == head@ + inner@ + tail@,
{
    let mut s: String = head.to_owned();
    s.append(inner);
    s.append(tail);
    s
}

/// Writes a list out of the texts of its parts: the parts, separated by a
/// comma and a space, in square brackets.
pub fn join_bracketed(parts: &Vec<String>) -> (s: String)
    ensures
        s@ == bracketed(parts.deep_view()),
{
    let ghost texts = parts.deep_view();
    let mut s: String = "[".to_owned();
    let mut i: usize = 0;
    while i < parts.len()
        invariant
            i <= parts.len(),
            texts == parts.deep_view(),
            s@ == "["@ + joined(texts.take(i as int)),
        decreases parts.len() - i,
    {
        if i > 0 {
            s.append(", ");
        }
        s.append(parts[i].as_str());
        proof {
            assert(texts.take(i + 1).drop_last() =~= texts.take(i as int));
            assert(texts.take(i + 1).last() == parts[i as int]@);
            assert(s@ =~= "["@ + joined(texts.take(i + 1)));
        }
        i += 1;
    }
    assert(texts.take(i as int) =~= texts);
    s.append("]");
    s
}

/// Renders a list of strings for a message.
pub fn show_strings(items: &Vec<String>) -> (s: String)
    ensures
        s@ == strings_text(items.deep_view()),
{
    let mut parts: Vec<String> = Vec::new();
    let mut i: usize = 0;
    while i < items.len()
        invariant
            i <= items.len(),
            parts.len() == i,
            forall|j: int| 0 <= j < i ==> parts[j]@ == str_debug_text(items[j]@),
        decreases items.len() - i,
    {
        parts.push(debug_str(items[i].as_str()));
        i += 1;
    }
    assert(parts.deep_view() =~= items.deep_view().map_values(|s: Seq<char>| str_debug_text(s)));
    join_bracketed(&parts)
}

/// Renders a list of characters for a message.
pub fn show_chars(items: &Vec<char>) -> (s: String)
    ensures
        s@ == chars_text(items@),
{
    let mut parts: Vec<String> = Vec::new();
    let mut i: usize = 0;
    while i < items.len()
        invariant
            i <= items.len(),
            parts.len() == i,
            forall|j: int| 0 <= j < i ==> parts[j]@ == char_debug_text(items[j]),
        decreases items.len() - i,
    {
        parts.push(debug_char(items[i]));
        i += 1;
    }
    assert(parts.deep_view() =~= items@.map_values(|c: char| char_debug_text(c)));
    join_bracketed(&parts)
}

} // verus!
