//! The few places where the library relies on code that is not verified
//! here. The declaration, the wrappers, the specifications of `std`
//! functions and the two names for formatted text in this file are
//! believed, not proved.

use vstd::prelude::*;

verus! {

/// `std::io::Error`, carried through unopened: the editing operations keep
/// the result type of the I/O layer around them, and never build an error.
#[verifier::external_type_specification]
#[verifier::external_body]
pub struct ExIoError(std::io::Error);

/// What `clamp` returns: `input` brought into the range from `min` to `max`.
pub open spec fn clamped(input: int, min: int, max: int) -> int {
    if input < min {
        min
    } else if input > max {
        max
    } else {
        input
    }
}

/// Calls `num::clamp` on three `usize` values. The function returns `min`
/// where the input is below it, `max` where the input is above it, and the
/// input otherwise; with `min > max` it panics in debug builds, so that case
/// is left out.
#[verifier::external_body]
pub(crate) fn clamp(input: usize, min: usize, max: usize) -> (r: usize)
    requires
        min <= max,
    ensures
        r == clamped(input as int, min as int, max as int),
{
    num::clamp(input, min, max)
}

/// The text that `std` writes for a `char` under the `{:?}` format.
pub uninterp spec fn char_debug_text(c: char) -> Seq<char>;

/// Formats a `char` with `format!("{:?}", ..)`. Nothing is claimed of the
/// text but that it depends on the character alone.
#[verifier::external_body]
pub(crate) fn debug_char(c: char) -> (r: String)
    ensures
        r@ == char_debug_text(c),
{
    format!("{:?}", c)
}

/// The text that `std` writes for a string under the `{:?}` format.
pub uninterp spec fn str_debug_text(s: Seq<char>) -> Seq<char>;

/// Formats a string slice with `format!("{:?}", ..)`. Nothing is claimed of
/// the text but that it depends on the characters of the slice alone.
#[verifier::external_body]
pub(crate) fn debug_str(s: &str) -> (r: String)
    ensures
        r@ == str_debug_text(s@),
{
    format!("{:?}", s)
}

/// `String::push` appends the given character to the end of the string.
pub assume_specification[ String::push ](s: &mut String, ch: char)
    ensures
        final(s)@ == old(s)@.push(ch),
;

/// The control codes: the code points of the general category `Cc` of
/// Unicode, which are U+0000 to U+001F and U+007F to U+009F.
pub open spec fn is_control_char(c: char) -> bool {
    c as u32 <= 0x1f || 0x7f <= c as u32 <= 0x9f
}

/// `char::is_control` tells whether the character has the general category
/// for control codes.
pub assume_specification[ char::is_control ](c: char) -> (r: bool)
    ensures
        r == is_control_char(c),
;

} // verus!
