//! Placeholder substitution.
//!
//! A configuration text may hold placeholders of the form `${NAME}`. Each
//! is replaced by the value that a table of variables gives for `NAME`; a
//! placeholder whose name the table does not know is left as it stands.

use crate::text::str_eq;
use vstd::prelude::*;
use vstd::string::*;

verus! {

/// Position of the first `${` at or after `from`, or the length of the
/// text where there is none.
pub open spec fn next_open(text: Seq<char>, from: int) -> int
    decreases text.len() - from,
{
    if from < 0 || from + 1 >= text.len() {
        text.len() as int
    } else if text[from] == '$' && text[from + 1] == '{' {
        from
    } else {
        next_open(text, from + 1)
    }
}

/// Position of the first `}` at or after `from`, or the length of the
/// text where there is none.
pub open spec fn next_close(text: Seq<char>, from: int) -> int
    decreases text.len() - from,
{
    if from < 0 || from >= text.len() {
        text.len() as int
    } else if text[from] == '}' {
        from
    } else {
        next_close(text, from + 1)
    }
}

/// The value of the first variable of that name.
pub open spec fn looked_up(vars: Seq<(String, String)>, name: Seq<char>) -> Option<Seq<char>>
    decreases vars.len(),
{
    if vars.len() == 0 {
        None
    } else if vars[0].0@ == name {
        Some(vars[0].1@)
    } else {
        looked_up(vars.drop_first(), name)
    }
}

/// The text from `pos` on with its placeholders replaced.
///
/// A placeholder runs from a `${` to the first `}` after it. The text is
/// read from left to right; what a placeholder is replaced by is not read
/// again, and an opening without a closing brace ends the reading.
pub open spec fn substituted(text: Seq<char>, vars: Seq<(String, String)>, pos: int) -> Seq<char>
    decreases text.len() - pos,
{
    let open = next_open(text, pos);
    let close = next_close(text, open);
    if pos < 0 || close < pos || close >= text.len() {
        text.subrange(pos, text.len() as int)
    } else {
        match looked_up(vars, text.subrange(open + 2, close)) {
            Some(value) => text.subrange(pos, open) + value + substituted(text, vars, close + 1),
            None => text.subrange(pos, close + 1) + substituted(text, vars, close + 1),
        }
    }
}

/// Where `next_open` finds something, it is a `${` at or after `from`.
pub proof fn lemma_next_open(text: Seq<char>, from: int)
    requires
        0 <= from,
    ensures
        from <= next_open(text, from) || next_open(text, from) == text.len(),
        next_open(text, from) <= text.len(),
        next_open(text, from) < text.len() ==> {
            &&& next_open(text, from) + 1 < text.len()
            &&& text[next_open(text, from)] == '$'
            &&& text[next_open(text, from) + 1] == '{'
        },
    decreases text.len() - from,
{
    if from + 1 < text.len() && !(text[from] == '$' && text[from + 1] == '{') {
        lemma_next_open(text, from + 1);
    }
}

/// Where `next_close` finds something, it is a `}` at or after `from`.
pub proof fn lemma_next_close(text: Seq<char>, from: int)
    requires
        0 <= from,
    ensures
        from <= next_close(text, from) || next_close(text, from) == text.len(),
        next_close(text, from) <= text.len(),
        next_close(text, from) < text.len() ==> text[next_close(text, from)] == '}',
    decreases text.len() - from,
{
    if from < text.len() && text[from] != '}' {
        lemma_next_close(text, from + 1);
    }
}

/// The characters of a string.
fn to_chars(text: &str) -> (chars: Vec<char>)
    ensures
        chars@ == text@,
{
    broadcast use vstd::string::axiom_spec_iter;

    let mut chars: Vec<char> = Vec::new();
    for c in it: text.chars()
        invariant
            it.seq() == text@,
            chars@ == text@.take(it.index() as int),
    {
        chars.push(c);
        assert(chars@ =~= text@.take(it.index() + 1));
    }
    assert(text@.take(text@.len() as int) =~= text@);
    chars
}

/// Finds the next `${`.
fn find_open(chars: &Vec<char>, from: usize) -> (open: usize)
    requires
        from <= chars@.len(),
    ensures
        open == next_open(chars@, from as int),
{
    let mut i: usize = from;
    while i < chars.len() && i + 1 < chars.len()
        invariant
            from <= i <= chars@.len(),
            next_open(chars@, i as int) == next_open(chars@, from as int),
        decreases chars@.len() - i,
    {
        if chars[i] == '$' && chars[i + 1] == '{' {
            return i;
        }
        i += 1;
    }
    chars.len()
}

/// Finds the next `}`.
fn find_close(chars: &Vec<char>, from: usize) -> (close: usize)
    requires
        from <= chars@.len(),
    ensures
        close == next_close(chars@, from as int),
{
    let mut i: usize = from;
    while i < chars.len()
        invariant
            from <= i <= chars@.len(),
            next_close(chars@, i as int) == next_close(chars@, from as int),
        decreases chars@.len() - i,
    {
        if chars[i] == '}' {
            return i;
        }
        i += 1;
    }
    chars.len()
}

/// Looks a variable up by name; the first entry of that name counts.
pub fn lookup<'a>(vars: &'a Vec<(String, String)>, name: &str) -> (value: Option<&'a str>)
    ensures
        match value {
            Some(text) => looked_up(vars@, name@) == Some(text@),
            None => looked_up(vars@, name@).is_none(),
        },
{
    let mut i: usize = 0;
    assert(vars@.skip(0) =~= vars@);
    while i < vars.len()
        invariant
            i <= vars.len(),
            looked_up(vars@.skip(i as int), name@) == looked_up(vars@, name@),
        decreases vars.len() - i,
    {
        proof {
            assert(vars@.skip(i as int).drop_first() =~= vars@.skip(i + 1));
        }
        if str_eq(vars[i].0.as_str(), name) {
            return Some(vars[i].1.as_str());
        }
        i += 1;
    }
    None
}

/// Substitute variables in a string.
///
/// Replaces `${NAME}` with the value that `vars` gives for `NAME`. Where
/// the table has no such name, the placeholder is left as it is.
pub fn substitute_vars(input: &str, vars: &Vec<(String, String)>) -> (output: String)
    ensures
        output@ == substituted(input@, vars@, 0),
{
    let chars = to_chars(input);
    let count = chars.len();
    let mut output = String::new();
    let mut pos: usize = 0;
    loop
        invariant_except_break
            output@ + substituted(input@, vars@, pos as int) == substituted(input@, vars@, 0),
        invariant
            chars@ == input@,
            count == input@.len(),
            pos <= count,
        ensures
            output@ == substituted(input@, vars@, 0),
        decreases count - pos,
    {
        let open = find_open(&chars, pos);
        proof {
            lemma_next_open(input@, pos as int);
            lemma_next_close(input@, open as int);
        }
        let close = find_close(&chars, open);
        if close >= count {
            output.append(input.substring_char(pos, count));
            break ;
        }
        let ghost before = output@;
        let ghost rest = substituted(input@, vars@, close + 1);
        let name = input.substring_char(open + 2, close);
        match lookup(vars, name) {
            Some(value) => {
                output.append(input.substring_char(pos, open));
                output.append(value);
                assert(output@ + rest =~= before + (input@.subrange(pos as int, open as int)
                    + value@ + rest));
            },
            None => {
                output.append(input.substring_char(pos, close + 1));
                assert(output@ + rest =~= before + (input@.subrange(pos as int, close + 1)
                    + rest));
            },
        }
        pos = close + 1;
    }
    output
}

/// A text without an opening `${` is left as it is.
pub proof fn lemma_plain_text_unchanged(text: Seq<char>, vars: Seq<(String, String)>)
    requires
        next_open(text, 0) == text.len(),
    ensures
        substituted(text, vars, 0) == text,
{
    assert(next_close(text, text.len() as int) == text.len());
    assert(text.subrange(0, text.len() as int) =~= text);
}

} // verus!
