//! When the name of a parameter says nothing that the argument does not say
//! already.

use vstd::prelude::*;
use crate::syntax::Expression;
use crate::text::{chars_of, same_chars};

verus! {

/// The lower-case form of an ASCII upper-case letter; any other character
/// unchanged.
pub open spec fn ascii_lowercase(c: char) -> char {
    if 0x41 <= c as u32 <= 0x5a {
        ((c as u32) + 0x20) as char
    } else {
        c
    }
}

/// Whether two texts have the same length and, at each position, the same
/// character but for the case of ASCII letters.
pub open spec fn eq_ignore_ascii_case(a: Seq<char>, b: Seq<char>) -> bool {
    &&& a.len() == b.len()
    &&& forall|i: int| 0 <= i < a.len() ==> ascii_lowercase(a[i]) == ascii_lowercase(b[i])
}

/// The number of underscores that a text starts with.
pub open spec fn leading_underscores(text: Seq<char>) -> nat
    decreases text.len(),
{
    if text.len() > 0 && text[0] == '_' {
        1 + leading_underscores(text.drop_first())
    } else {
        0
    }
}

/// The text without the underscores that it starts with.
pub open spec fn trim_start_underscores(text: Seq<char>) -> Seq<char> {
    text.skip(leading_underscores(text) as int)
}

/// The text without its underscores.
pub open spec fn without_underscores(text: Seq<char>) -> Seq<char> {
    text.filter(|c: char| c != '_')
}

/// Whether two names are the same name in two conventions: the same text
/// once the underscores are taken out and the case of ASCII letters is
/// ignored, as `someValue` and `some_value` are.
pub open spec fn same_ignoring_convention(argument: Seq<char>, param_name: Seq<char>) -> bool {
    eq_ignore_ascii_case(without_underscores(argument), without_underscores(param_name))
}

/// Whether `argument` starts with `param_name`, but for the case of ASCII
/// letters, and what follows is nothing or starts with an underscore.
pub open spec fn starts_with_name(argument: Seq<char>, param_name: Seq<char>) -> bool {
    &&& param_name.len() <= argument.len()
    &&& eq_ignore_ascii_case(argument.take(param_name.len() as int), param_name)
    &&& (argument.len() == param_name.len() || argument[param_name.len() as int] == '_')
}

/// Whether `argument` ends with `param_name`, but for the case of ASCII
/// letters, and what comes before is nothing or ends with an underscore.
pub open spec fn ends_with_name(argument: Seq<char>, param_name: Seq<char>) -> bool {
    &&& param_name.len() <= argument.len()
    &&& eq_ignore_ascii_case(argument.skip(argument.len() - param_name.len()), param_name)
    &&& (argument.len() == param_name.len() || argument[argument.len() - param_name.len() - 1]
        == '_')
}

/// Whether the text of an argument tells what the name of its parameter
/// would tell. Underscores at the start of either do not count.
pub open spec fn names_are_similar(argument: Seq<char>, param_name: Seq<char>) -> bool {
    let argument = trim_start_underscores(argument);
    let param_name = trim_start_underscores(param_name);
    ||| starts_with_name(argument, param_name)
    ||| ends_with_name(argument, param_name)
    ||| same_ignoring_convention(argument, param_name)
}

/// An argument that is named as its parameter is similar to it, whatever
/// the case of the ASCII letters and the underscores in front of either.
pub proof fn lemma_same_name_is_similar(argument: Seq<char>, param_name: Seq<char>)
    requires
        eq_ignore_ascii_case(trim_start_underscores(argument), trim_start_underscores(param_name)),
    ensures
        names_are_similar(argument, param_name),
{
    let argument = trim_start_underscores(argument);
    assert(argument.take(argument.len() as int) =~= argument);
}

/// The name that stands for an expression: the name of a path or of the
/// field of a field access, and for a prefix operator that of its operand.
/// No other expression has one.
pub open spec fn string_representation(expression: Expression) -> Option<Seq<char>>
    decreases expression,
{
    match expression {
        Expression::Path(Some(name)) => Some(name@),
        Expression::Prefix(Some(operand)) => string_representation(*operand),
        Expression::Field(Some(name)) => Some(name@),
        _ => None,
    }
}

/// Whether a parameter of this name needs no hint where it is the only
/// parameter: a name of one character, or one of `predicate` and `value`.
pub open spec fn is_obvious_name(param_name: Seq<char>) -> bool {
    param_name.len() == 1 || param_name == "predicate"@ || param_name == "value"@
}

/// Whether the hint for a parameter named `param_name`, of a function with
/// `parameter_count` parameters, is left out before this argument.
pub open spec fn hides_param_name_hint(
    parameter_count: nat,
    param_name: Seq<char>,
    expression: Expression,
) -> bool {
    ||| match string_representation(expression) {
        Some(argument) => names_are_similar(argument, param_name),
        None => false,
    }
    ||| parameter_count == 1 && is_obvious_name(param_name)
}

fn lowercase(c: char) -> (lower: char)
    ensures
        lower == ascii_lowercase(c),
{
    let code: u32 = c as u32;
    if 0x41 <= code && code <= 0x5a {
        let byte: u8 = (code + 0x20) as u8;
        byte as char
    } else {
        c
    }
}

/// Whether `text`, from `from` on, reads `name`, but for the case of ASCII
/// letters.
fn reads_name_at(text: &Vec<char>, from: usize, name: &Vec<char>) -> (reads: bool)
    requires
        from + name.len() <= text.len(),
    ensures
        reads == eq_ignore_ascii_case(text@.subrange(from as int, from + name.len()), name@),
{
    let mut index: usize = 0;
    while index < name.len()
        invariant
            index <= name.len(),
            from + name.len() <= text.len(),
            forall|i: int|
                0 <= i < index ==> ascii_lowercase(text@[from + i]) == ascii_lowercase(name@[i]),
        decreases name.len() - index,
    {
        if lowercase(text[from + index]) != lowercase(name[index]) {
            assert(text@.subrange(from as int, from + name.len())[index as int] == text@[from
                + index]);
            return false;
        }
        index += 1;
    }
    assert forall|i: int| 0 <= i < name.len() implies ascii_lowercase(
        text@.subrange(from as int, from + name.len())[i],
    ) == ascii_lowercase(name@[i]) by {
        assert(text@.subrange(from as int, from + name.len())[i] == text@[from + i]);
    }
    true
}

proof fn lemma_leading_underscores(text: Seq<char>, count: nat)
    requires
        count <= text.len(),
        forall|i: int| 0 <= i < count ==> text[i] == '_',
        count == text.len() || text[count as int] != '_',
    ensures
        leading_underscores(text) == count,
    decreases count,
{
    if count > 0 {
        lemma_leading_underscores(text.drop_first(), (count - 1) as nat);
    }
}

fn trimmed(text: &Vec<char>) -> (rest: Vec<char>)
    ensures
        rest@ == trim_start_underscores(text@),
{
    let mut start: usize = 0;
    while start < text.len() && text[start] == '_'
        invariant
            start <= text.len(),
            forall|i: int| 0 <= i < start ==> text@[i] == '_',
        decreases text.len() - start,
    {
        start += 1;
    }
    proof {
        lemma_leading_underscores(text@, start as nat);
    }
    let mut rest: Vec<char> = Vec::new();
    let mut index: usize = start;
    while index < text.len()
        invariant
            start <= index <= text.len(),
            rest@ == text@.subrange(start as int, index as int),
        decreases text.len() - index,
    {
        rest.push(text[index]);
        assert(text@.subrange(start as int, index + 1) =~= text@.subrange(
            start as int,
            index as int,
        ).push(text@[index as int]));
        index += 1;
    }
    assert(rest@ =~= text@.skip(start as int));
    rest
}

fn stripped(text: &Vec<char>) -> (rest: Vec<char>)
    ensures
        rest@ == without_underscores(text@),
{
    let mut rest: Vec<char> = Vec::new();
    let mut index: usize = 0;
    proof {
        reveal(Seq::filter);
    }
    while index < text.len()
        invariant
            index <= text.len(),
            rest@ == without_underscores(text@.take(index as int)),
        decreases text.len() - index,
    {
        proof {
            reveal(Seq::filter);
            assert(text@.take(index + 1).drop_last() =~= text@.take(index as int));
        }
        if text[index] != '_' {
            rest.push(text[index]);
        }
        index += 1;
    }
    assert(text@.take(text.len() as int) =~= text@);
    rest
}

fn same_ignoring_convention_chars(argument: &Vec<char>, param_name: &Vec<char>) -> (same: bool)
    ensures
        same == same_ignoring_convention(argument@, param_name@),
{
    let argument = stripped(argument);
    let param_name = stripped(param_name);
    if argument.len() != param_name.len() {
        return false;
    }
    assert(argument@.subrange(0, param_name.len() as int) =~= argument@);
    reads_name_at(&argument, 0, &param_name)
}

/// Whether two names are the same name in two conventions, as `someValue`
/// and `some_value` are.
pub fn compare_ignore_case_convention(argument: &str, param_name: &str) -> (same: bool)
    ensures
        same == same_ignoring_convention(argument@, param_name@),
{
    same_ignoring_convention_chars(&chars_of(argument), &chars_of(param_name))
}

/// Whether a parameter of this name needs no hint where it is the only
/// parameter.
pub fn is_obvious_parameter(param_name: &str) -> (obvious: bool)
    ensures
        obvious == is_obvious_name(param_name@),
{
    let name = chars_of(param_name);
    name.len() == 1 || same_chars(&name, &chars_of("predicate")) || same_chars(
        &name,
        &chars_of("value"),
    )
}

/// The name that stands for an expression, if it has one.
pub fn get_string_representation(expression: &Expression) -> (name: Option<String>)
    ensures
        match name {
            Some(name) => string_representation(*expression) == Some(name@),
            None => string_representation(*expression) is None,
        },
    decreases *expression,
{
    match expression {
        Expression::Path(Some(name)) => Some(name.clone()),
        Expression::Prefix(Some(operand)) => get_string_representation(operand),
        Expression::Field(Some(name)) => Some(name.clone()),
        _ => None,
    }
}

/// Whether the argument, where a name stands for it, tells what the name
/// of its parameter would tell.
pub fn is_argument_similar_to_param_name(expression: &Expression, param_name: &str) -> (similar:
    bool)
    ensures
        similar == match string_representation(*expression) {
            Some(argument) => names_are_similar(argument, param_name@),
            None => false,
        },
{
    let argument = match get_string_representation(expression) {
        Some(argument) => argument,
        None => {
            return false;
        },
    };
    let param_name = trimmed(&chars_of(param_name));
    let argument = trimmed(&chars_of(argument.as_str()));
    if param_name.len() <= argument.len() {
        let rest = argument.len() - param_name.len();
        assert(argument@.take(param_name.len() as int) =~= argument@.subrange(
            0,
            0 + param_name.len(),
        ));
        assert(argument@.skip(rest as int) =~= argument@.subrange(
            rest as int,
            rest + param_name.len(),
        ));
        if reads_name_at(&argument, 0, &param_name) && (rest == 0 || argument[param_name.len()]
            == '_') {
            return true;
        }
        if reads_name_at(&argument, rest, &param_name) && (rest == 0 || argument[rest - 1] == '_') {
            return true;
        }
    }
    same_ignoring_convention_chars(&argument, &param_name)
}

/// Whether the hint for a parameter named `param_name`, of a function with
/// `parameter_count` parameters, is left out before this argument.
pub fn should_hide_param_name_hint(
    parameter_count: usize,
    param_name: &str,
    expression: &Expression,
) -> (hide: bool)
    ensures
        hide == hides_param_name_hint(parameter_count as nat, param_name@, *expression),
{
    is_argument_similar_to_param_name(expression, param_name) || (parameter_count == 1
        && is_obvious_parameter(param_name))
}

} // verus!
