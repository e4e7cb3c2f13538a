//! Texts as sequences of characters: finding a text in another, replacing
//! it, and splitting at a character.

use vstd::prelude::*;

verus! {

/// The characters of a text.
pub fn chars_of(text: &str) -> (chars: Vec<char>)
    ensures
        chars@ == text@,
{
    let mut chars: Vec<char> = Vec::new();
    for c in it: text.chars()
        invariant
            chars@ == it.seq().take(it.index() as int),
            it.seq() == text@,
    {
        chars.push(c);
        assert(it.seq().take(it.index() + 1) =~= it.seq().take(it.index() as int).push(c));
    }
    assert(chars@ =~= text@);
    chars
}

/// Appends a character to a text, with `String::push` of std. The contract
/// claims that the text is afterwards what it was, followed by the
/// character.
#[verifier::external_body]
fn push_char(text: &mut String, c: char)
    ensures
        final(text)@ == old(text)@.push(c),
{
    text.push(c)
}

/// The text that is made of these characters.
pub fn string_of(chars: &Vec<char>) -> (text: String)
    ensures
        text@ == chars@,
{
    let mut text = String::new();
    let mut index: usize = 0;
    while index < chars.len()
        invariant
            index <= chars.len(),
            text@ == chars@.take(index as int),
        decreases chars.len() - index,
    {
        push_char(&mut text, chars[index]);
        assert(chars@.take(index + 1) =~= chars@.take(index as int).push(chars@[index as int]));
        index += 1;
    }
    assert(chars@.take(chars.len() as int) =~= chars@);
    text
}

/// Whether two texts are the same.
pub fn same_chars(a: &Vec<char>, b: &Vec<char>) -> (same: bool)
    ensures
        same == (a@ == b@),
{
    if a.len() != b.len() {
        return false;
    }
    let mut index: usize = 0;
    while index < a.len()
        invariant
            index <= a.len(),
            a.len() == b.len(),
            forall|i: int| 0 <= i < index ==> a@[i] == b@[i],
        decreases a.len() - index,
    {
        if a[index] != b[index] {
            return false;
        }
        index += 1;
    }
    assert(a@ =~= b@);
    true
}

/// Whether `pattern` stands in `text` at the position `at`.
pub open spec fn matches_at(text: Seq<char>, pattern: Seq<char>, at: int) -> bool {
    &&& 0 <= at
    &&& at + pattern.len() <= text.len()
    &&& text.subrange(at, at + pattern.len()) == pattern
}

/// Whether `pattern` stands somewhere in `text`.
pub open spec fn occurs_in(pattern: Seq<char>, text: Seq<char>) -> bool {
    exists|at: int| matches_at(text, pattern, at)
}

/// `text` with every occurrence of `from` replaced by `to`. The occurrences
/// are taken from the left and do not overlap. Where `from` is empty, `to`
/// goes before every character and after the last.
pub open spec fn replaced(text: Seq<char>, from: Seq<char>, to: Seq<char>) -> Seq<char>
    decreases text.len(),
{
    if from.len() == 0 {
        if text.len() == 0 {
            to
        } else {
            to + seq![text[0]] + replaced(text.skip(1), from, to)
        }
    } else if matches_at(text, from, 0) {
        to + replaced(text.skip(from.len() as int), from, to)
    } else if text.len() == 0 {
        text
    } else {
        seq![text[0]] + replaced(text.skip(1), from, to)
    }
}

/// Whether `pattern` stands in `text` at the position `at`.
pub fn is_match_at(text: &Vec<char>, pattern: &Vec<char>, at: usize) -> (is_match: bool)
    ensures
        is_match == matches_at(text@, pattern@, at as int),
{
    if pattern.len() > text.len() || at > text.len() - pattern.len() {
        return false;
    }
    let mut index: usize = 0;
    while index < pattern.len()
        invariant
            index <= pattern.len(),
            at + pattern.len() <= text.len(),
            forall|i: int| 0 <= i < index ==> text@[at + i] == pattern@[i],
        decreases pattern.len() - index,
    {
        if text[at + index] != pattern[index] {
            assert(text@.subrange(at as int, at + pattern.len())[index as int] == text@[at
                + index]);
            return false;
        }
        index += 1;
    }
    assert(text@.subrange(at as int, at + pattern.len()) =~= pattern@);
    true
}

/// Whether `pattern` stands somewhere in `text`.
pub fn contains(text: &Vec<char>, pattern: &Vec<char>) -> (found: bool)
    ensures
        found == occurs_in(pattern@, text@),
{
    if pattern.len() > text.len() {
        return false;
    }
    let last = text.len() - pattern.len();
    let mut at: usize = 0;
    while at < last
        invariant
            at <= last,
            last == text.len() - pattern.len(),
            forall|before: int| 0 <= before < at ==> !matches_at(text@, pattern@, before),
        decreases last - at,
    {
        if is_match_at(text, pattern, at) {
            return true;
        }
        at += 1;
    }
    is_match_at(text, pattern, last)
}

/// `text` with every occurrence of `from` replaced by `to`.
pub fn replace(text: &Vec<char>, from: &Vec<char>, to: &Vec<char>) -> (result: Vec<char>)
    ensures
        result@ == replaced(text@, from@, to@),
{
    let mut result: Vec<char> = Vec::new();
    let mut at: usize = 0;
    assert(text@.skip(0) =~= text@);
    assert(result@ + replaced(text@, from@, to@) =~= replaced(text@, from@, to@));
    loop
        invariant_except_break
            result@ + replaced(text@.skip(at as int), from@, to@) == replaced(text@, from@, to@),
        invariant
            at <= text.len(),
        ensures
            result@ == replaced(text@, from@, to@),
        decreases text.len() - at,
    {
        let ghost rest = text@.skip(at as int);
        let ghost before = result@;
        assert(matches_at(rest, from@, 0) == matches_at(text@, from@, at as int)) by {
            if at + from@.len() <= text@.len() {
                assert(rest.subrange(0, from@.len() as int) =~= text@.subrange(
                    at as int,
                    at + from@.len(),
                ));
            }
        }
        if from.len() == 0 {
            append_all(&mut result, to);
            if at == text.len() {
                assert(before + to@ =~= replaced(text@, from@, to@));
                break ;
            }
            result.push(text[at]);
            assert(rest.skip(1) =~= text@.skip(at + 1));
            assert(result@ + replaced(text@.skip(at + 1), from@, to@) =~= before + replaced(
                rest,
                from@,
                to@,
            ));
            at += 1;
        } else if is_match_at(text, from, at) {
            append_all(&mut result, to);
            assert(rest.skip(from@.len() as int) =~= text@.skip(at + from@.len()));
            assert(result@ + replaced(text@.skip(at + from@.len()), from@, to@) =~= before
                + replaced(rest, from@, to@));
            at += from.len();
        } else if at == text.len() {
            assert(before + rest =~= before);
            break ;
        } else {
            result.push(text[at]);
            assert(rest.skip(1) =~= text@.skip(at + 1));
            assert(result@ + replaced(text@.skip(at + 1), from@, to@) =~= before + replaced(
                rest,
                from@,
                to@,
            ));
            at += 1;
        }
    }
    result
}

fn append_all(result: &mut Vec<char>, chars: &Vec<char>)
    ensures
        final(result)@ == old(result)@ + chars@,
{
    let mut index: usize = 0;
    assert(result@ =~= old(result)@ + chars@.take(0));
    while index < chars.len()
        invariant
            index <= chars.len(),
            result@ == old(result)@ + chars@.take(index as int),
        decreases chars.len() - index,
    {
        result.push(chars[index]);
        index += 1;
        assert(result@ =~= old(result)@ + chars@.take(index as int));
    }
    assert(chars@.take(chars.len() as int) =~= chars@);
}

/// The characters of `text` from `from` up to `to`.
pub fn slice(text: &Vec<char>, from: usize, to: usize) -> (part: Vec<char>)
    requires
        from <= to <= text.len(),
    ensures
        part@ == text@.subrange(from as int, to as int),
{
    let mut part: Vec<char> = Vec::new();
    let mut index: usize = from;
    while index < to
        invariant
            from <= index <= to <= text.len(),
            part@ == text@.subrange(from as int, index as int),
        decreases to - index,
    {
        part.push(text[index]);
        index += 1;
        assert(part@ =~= text@.subrange(from as int, index as int));
    }
    part
}

/// Splits `text` at the first `separator`: what stands before it, and what
/// stands after it. `None` where there is no `separator`.
pub fn split_once(text: &Vec<char>, separator: char) -> (parts: Option<(Vec<char>, Vec<char>)>)
    ensures
        match parts {
            Some((before, after)) => {
                &&& text@ == before@ + seq![separator] + after@
                &&& !before@.contains(separator)
            },
            None => !text@.contains(separator),
        },
{
    let mut at: usize = 0;
    while at < text.len()
        invariant
            at <= text.len(),
            forall|before: int| 0 <= before < at ==> text@[before] != separator,
        decreases text.len() - at,
    {
        if text[at] == separator {
            let before = slice(text, 0, at);
            let after = slice(text, at + 1, text.len());
            assert(text@ =~= before@ + seq![separator] + after@);
            return Some((before, after));
        }
        at += 1;
    }
    None
}

} // verus!
