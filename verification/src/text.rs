//! Small text helpers: decimal numbers and comparisons.

use vstd::prelude::*;
use vstd::string::*;

verus! {

/// The text of one decimal digit.
pub open spec fn digit_text(digit: nat) -> Seq<char> {
    if digit == 0 {
        "0"@
    } else if digit == 1 {
        "1"@
    } else if digit == 2 {
        "2"@
    } else if digit == 3 {
        "3"@
    } else if digit == 4 {
        "4"@
    } else if digit == 5 {
        "5"@
    } else if digit == 6 {
        "6"@
    } else if digit == 7 {
        "7"@
    } else if digit == 8 {
        "8"@
    } else {
        "9"@
    }
}

/// A number in decimal, without sign or leading zeros.
pub open spec fn decimal(number: nat) -> Seq<char>
    decreases number,
{
    if number < 10 {
        digit_text(number)
    } else {
        decimal(number / 10) + digit_text(number % 10)
    }
}

fn digit_str(digit: u64) -> (text: &'static str)
    requires
        digit < 10,
    ensures
        text@ == digit_text(digit as nat),
{
    if digit == 0 {
        "0"
    } else if digit == 1 {
        "1"
    } else if digit == 2 {
        "2"
    } else if digit == 3 {
        "3"
    } else if digit == 4 {
        "4"
    } else if digit == 5 {
        "5"
    } else if digit == 6 {
        "6"
    } else if digit == 7 {
        "7"
    } else if digit == 8 {
        "8"
    } else {
        "9"
    }
}

/// Appends `number` in decimal.
pub fn append_decimal(out: &mut String, number: u64)
    ensures
        final(out)@ == old(out)@ + decimal(number as nat),
    decreases number,
{
    if number >= 10 {
        append_decimal(out, number / 10);
    }
    out.append(digit_str(number % 10));
}

/// What `str::to_lowercase` of the standard library returns for a text: each
/// character replaced by its Unicode lowercase mapping.
pub uninterp spec fn lowercase(text: Seq<char>) -> Seq<char>;

/// Calls `str::to_lowercase`. The result is a function of the text alone; the
/// contract gives it its name and claims nothing else of it.
#[verifier::external_body]
pub(crate) fn to_lowercase(text: &str) -> (lowered: String)
    ensures
        lowered@ == lowercase(text@),
{
    text.to_lowercase()
}

/// Whether two texts hold the same characters.
pub(crate) fn same_text(left: &str, right: &str) -> (same: bool)
    ensures
        same == (left@ == right@),
{
    String::from_str(left) == String::from_str(right)
}

/// A character's code with the upper-case letters `A` to `Z` mapped onto
/// their lower-case counterparts.
pub open spec fn folded(character: char) -> int {
    if 'A' <= character <= 'Z' {
        character as int + 32
    } else {
        character as int
    }
}

/// Whether two texts are equal up to the case of their ASCII letters.
pub open spec fn same_ignoring_ascii_case(left: Seq<char>, right: Seq<char>) -> bool {
    left.len() == right.len() && forall|i: int|
        0 <= i < left.len() ==> folded(#[trigger] left[i]) == folded(right[i])
}

fn fold(character: char) -> (code: u32)
    ensures
        code == folded(character),
{
    if 'A' <= character && character <= 'Z' {
        character as u32 + 32
    } else {
        character as u32
    }
}

fn characters(text: &str) -> (list: Vec<char>)
    ensures
        list@ == text@,
{
    broadcast use vstd::string::group_string_axioms;

    let mut list: Vec<char> = Vec::new();
    for character in walk: text.chars()
        invariant
            walk.seq() == text@,
            list@ == text@.take(walk.index()),
    {
        proof {
            assert(text@.take(walk.index() + 1) =~= text@.take(walk.index()).push(character));
        }
        list.push(character);
    }
    proof {
        assert(text@.take(text@.len() as int) =~= text@);
    }
    list
}

/// Whether two texts are equal up to the case of their ASCII letters; all
/// other characters must match exactly.
pub fn eq_ignoring_ascii_case(left: &str, right: &str) -> (same: bool)
    ensures
        same == same_ignoring_ascii_case(left@, right@),
{
    let first = characters(left);
    let second = characters(right);
    if first.len() != second.len() {
        return false;
    }
    let mut index: usize = 0;
    while index < first.len()
        invariant
            index <= first.len(),
            first.len() == second.len(),
            first@ == left@,
            second@ == right@,
            forall|i: int| 0 <= i < index ==> folded(#[trigger] first@[i]) == folded(second@[i]),
        decreases first.len() - index,
    {
        if fold(first[index]) != fold(second[index]) {
            return false;
        }
        index += 1;
    }
    true
}

} // verus!
