//! Trimming a line of input.

use vstd::prelude::*;
use vstd::string::*;

verus! {

/// The characters that count as white space: those that Unicode gives the
/// property `White_Space`.
pub open spec fn white_space(c: char) -> bool {
    let code = c as u32;
    ||| 0x09 <= code <= 0x0D
    ||| code == 0x20
    ||| code == 0x85
    ||| code == 0xA0
    ||| code == 0x1680
    ||| 0x2000 <= code <= 0x200A
    ||| code == 0x2028
    ||| code == 0x2029
    ||| code == 0x202F
    ||| code == 0x205F
    ||| code == 0x3000
}

/// The first position at or behind `from` that holds no white space, or the
/// length of the text where there is none.
pub open spec fn first_solid(text: Seq<char>, from: int) -> int
    decreases text.len() - from,
{
    if from < 0 || from >= text.len() || !white_space(text[from]) {
        from
    } else {
        first_solid(text, from + 1)
    }
}

/// The position behind the last character of `text[floor..upto]` that is
/// no white space, or `floor` where all of it is white space.
pub open spec fn last_solid(text: Seq<char>, floor: int, upto: int) -> int
    decreases upto - floor,
{
    if upto <= floor || upto > text.len() || !white_space(text[upto - 1]) {
        upto
    } else {
        last_solid(text, floor, upto - 1)
    }
}

/// The text without the white space at its start and at its end.
pub open spec fn trimmed(text: Seq<char>) -> Seq<char> {
    let start = first_solid(text, 0);
    text.subrange(start, last_solid(text, start, text.len() as int))
}

/// Whether a character is white space.
pub fn is_white_space(c: char) -> (white: bool)
    ensures
        white == white_space(c),
{
    let code: u32 = c as u32;
    (0x09 <= code && code <= 0x0D) || code == 0x20 || code == 0x85 || code == 0xA0 || code
        == 0x1680 || (0x2000 <= code && code <= 0x200A) || code == 0x2028 || code == 0x2029
        || code == 0x202F || code == 0x205F || code == 0x3000
}

/// The line without the white space around it.
pub fn trim(line: &str) -> (inner: String)
    ensures
        inner@ == trimmed(line@),
{
    let length = line.unicode_len();
    let mut start: usize = 0;
    while start < length && is_white_space(line.get_char(start))
        invariant
            length == line@.len(),
            start <= length,
            first_solid(line@, 0) == first_solid(line@, start as int),
        decreases length - start,
    {
        start = start + 1;
    }
    let mut end: usize = length;
    while end > start && is_white_space(line.get_char(end - 1))
        invariant
            length == line@.len(),
            start <= end <= length,
            last_solid(line@, start as int, length as int) == last_solid(
                line@,
                start as int,
                end as int,
            ),
        decreases end - start,
    {
        end = end - 1;
    }
    String::from_str(line.substring_char(start, end))
}

} // verus!
