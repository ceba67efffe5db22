//! From what a player types to a cell of the grid.

use crate::score::DIM;
use vstd::prelude::*;
use vstd::string::*;

verus! {

/// What the player is told when an entry lies outside the grid.
pub const OUT_OF_BOUNDS: &'static str = "input out of bounds. try again";

/// `val` held between `min` and `max`: a value above `max` becomes `max`,
/// one below `min` becomes `min`.
pub open spec fn clamped(min: int, max: int, val: int) -> int {
    if val > max {
        max
    } else if val < min {
        min
    } else {
        val
    }
}

/// The zero-based index that a one-based entry stands for. An entry outside
/// `1..=DIM` counts as the nearest end of that range.
pub open spec fn index_of(raw: int) -> int {
    clamped(1, DIM as int, raw) - 1
}

/// An entry names a row or column of the grid as it stands.
pub open spec fn in_bounds(input: int) -> bool {
    1 <= input <= DIM
}

/// Clamps the value `val` between `min` and `max`.
pub fn clamp(min: u8, max: u8, val: u8) -> (held: u8)
    ensures
        held == clamped(min as int, max as int, val as int),
{
    if val > max {
        max
    } else if val < min {
        min
    } else {
        val
    }
}

/// Turns a one-based entry into a zero-based index, clamping what lies
/// outside the grid to its nearest edge.
pub fn coordinate(raw: i8) -> (index: u8)
    ensures
        index == index_of(raw as int),
        index < DIM,
{
    let shifted: u8 = if raw < 1 {
        0
    } else {
        (raw - 1) as u8
    };
    clamp(0, DIM - 1, shifted)
}

/// Verifies that the input is within bounds.
pub fn check_input(input: i8) -> (checked: Result<u8, String>)
    ensures
        checked.is_ok() <==> in_bounds(input as int),
        checked matches Ok(n) ==> n == input,
        checked matches Err(msg) ==> msg@ == OUT_OF_BOUNDS@,
{
    if input > DIM as i8 || 0 >= input {
        return Err(String::from_str(OUT_OF_BOUNDS));
    }
    Ok(input as u8)
}

/// What `str::trim` makes of a text.
pub uninterp spec fn trimmed(text: Seq<char>) -> Seq<char>;

/// What `str::parse::<i8>` makes of a text: the number, or `None` where it
/// reports an error.
pub uninterp spec fn parsed_i8(text: Seq<char>) -> Option<i8>;

/// Calls `str::trim`, which returns the slice of `line` without its leading
/// and trailing whitespace. The contract only gives that slice a name: it
/// is a function of the characters of `line` alone.
#[verifier::external_body]
fn trim(line: &str) -> (text: &str)
    ensures
        text@ == trimmed(line@),
{
    line.trim()
}

/// Calls `str::parse::<i8>`, which reads `text` as a decimal number that
/// fits an `i8` and fails on any other text. The contract only gives the
/// outcome a name: it is a function of the characters of `text` alone.
#[verifier::external_body]
fn parse_i8(text: &str) -> (number: Option<i8>)
    ensures
        number == parsed_i8(text@),
{
    match text.parse::<i8>() {
        Ok(n) => Some(n),
        Err(_) => None,
    }
}

/// How one round of asking for a coordinate ends.
#[derive(Debug, PartialEq, Eq)]
pub enum Ask {
    /// The entry names a row or column: here it is, still one-based.
    Accepted(u8),
    /// Ask once more, showing this prompt.
    Again(String),
}

/// An entry that counts as a number typed by the player. No number at all
/// and the number `-1` both count as nothing typed.
pub open spec fn is_entry(number: Option<i8>) -> bool {
    number matches Some(n) && n != -1
}

/// The prompt of the next round when this one was not accepted: the same
/// prompt where nothing counted as typed, the bounds message otherwise.
pub open spec fn next_prompt(prompt: Seq<char>, number: Option<i8>) -> Seq<char> {
    if is_entry(number) {
        OUT_OF_BOUNDS@
    } else {
        prompt
    }
}

/// Decides one round of asking from the number that was read, if any.
/// A number inside the grid is accepted; otherwise the player is asked
/// again: with the same prompt after no number, with the bounds message
/// after a number outside the grid.
pub fn judge_entry(prompt: String, number: Option<i8>) -> (ask: Ask)
    ensures
        match ask {
            Ask::Accepted(n) => number matches Some(v) && in_bounds(v as int) && n == v,
            Ask::Again(next) => !(number matches Some(v) && in_bounds(v as int)) && next@
                == next_prompt(prompt@, number),
        },
{
    match number {
        None => Ask::Again(prompt),
        Some(-1) => Ask::Again(prompt),
        Some(input) => match check_input(input) {
            Ok(n) => Ask::Accepted(n),
            Err(msg) => Ask::Again(msg),
        },
    }
}

/// Decides one round of asking from the line that the player typed in
/// reply to `prompt`: the line is trimmed, read as a number and judged.
pub fn read_entry(prompt: String, line: &str) -> (ask: Ask)
    ensures
        match ask {
            Ask::Accepted(n) => parsed_i8(trimmed(line@)) matches Some(v) && in_bounds(v as int)
                && n == v,
            Ask::Again(next) => !(parsed_i8(trimmed(line@)) matches Some(v) && in_bounds(v as int))
                && next@ == next_prompt(prompt@, parsed_i8(trimmed(line@))),
        },
{
    judge_entry(prompt, parse_i8(trim(line)))
}

} // verus!
