//! The rules that a new joy entry must meet before it is stored.
use vstd::prelude::*;

verus! {

/// The characters with Unicode's White_Space property.
pub open spec fn is_white_space(c: char) -> bool {
    let u = c as u32;
    (0x9 <= u <= 0xd) || u == 0x20 || u == 0x85 || u == 0xa0 || u == 0x1680 || (0x2000 <= u
        <= 0x200a) || u == 0x2028 || u == 0x2029 || u == 0x202f || u == 0x205f || u == 0x3000
}

/// Whether `c` has the White_Space property.
fn white_space(c: char) -> (b: bool)
    ensures
        b == is_white_space(c),
{
    let u = c as u32;
    (0x9 <= u && u <= 0xd) || u == 0x20 || u == 0x85 || u == 0xa0 || u == 0x1680 || (0x2000 <= u
        && u <= 0x200a) || u == 0x2028 || u == 0x2029 || u == 0x202f || u == 0x205f || u == 0x3000
}

/// Nothing is left of `s` once surrounding white space is trimmed.
pub open spec fn is_blank(s: Seq<char>) -> bool {
    forall|i: int| 0 <= i < s.len() ==> is_white_space(#[trigger] s[i])
}

/// Whether `s` is empty once trimmed.
pub fn is_blank_text(s: &str) -> (b: bool)
    ensures
        b == is_blank(s@),
{
    for c in it: s.chars()
        invariant
            it.seq() == s@,
            forall|k: int| 0 <= k < it.index() ==> is_white_space(#[trigger] s@[k]),
    {
        if !white_space(c) {
            return false;
        }
    }
    true
}

/// The message for a field that is empty once trimmed.
pub open spec fn empty_field_message(name: Seq<char>) -> Seq<char> {
    name + " cannot be empty"@
}

/// The first of the three fields, in order, that is blank, by name.
pub open spec fn first_blank_field(frustration: Seq<char>, context: Seq<char>, joy: Seq<char>) -> Option<
    Seq<char>,
> {
    if is_blank(frustration) {
        Some("frustration"@)
    } else if is_blank(context) {
        Some("context"@)
    } else if is_blank(joy) {
        Some("joy"@)
    } else {
        None
    }
}

/// The error for the field called `name`.
fn empty_field(name: &str) -> (m: String)
    ensures
        m@ == empty_field_message(name@),
{
    let mut m = String::from_str(name);
    m.append(" cannot be empty");
    m
}

/// Checks the three texts of a new entry: each must hold more than white
/// space. The error names the first field, in the order frustration,
/// context, joy, that does not.
pub fn validate(frustration: &str, context: &str, joy: &str) -> (r: Result<(), String>)
    ensures
        match first_blank_field(frustration@, context@, joy@) {
            None => r is Ok,
            Some(name) => r is Err && r->Err_0@ == empty_field_message(name),
        },
{
    if is_blank_text(frustration) {
        return Err(empty_field("frustration"));
    }
    if is_blank_text(context) {
        return Err(empty_field("context"));
    }
    if is_blank_text(joy) {
        return Err(empty_field("joy"));
    }
    Ok(())
}

} // verus!
