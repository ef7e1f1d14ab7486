//! Character classes used by the validation rules and the token alphabet.

use vstd::prelude::*;

verus! {

/// The code point of a character, as a mathematical integer.
pub open spec fn code(c: char) -> int {
    c as u32 as int
}

/// Decimal digits `0` to `9`.
pub open spec fn is_digit(c: char) -> bool {
    0x30 <= code(c) <= 0x39
}

/// Upper-case letters `A` to `Z`.
pub open spec fn is_upper(c: char) -> bool {
    0x41 <= code(c) <= 0x5A
}

/// Lower-case letters `a` to `z`.
pub open spec fn is_lower(c: char) -> bool {
    0x61 <= code(c) <= 0x7A
}

/// The 62 characters of the alphanumeric alphabet: ASCII letters and digits.
pub open spec fn is_alphanumeric(c: char) -> bool {
    is_digit(c) || is_upper(c) || is_lower(c)
}

/// Control characters: the code points U+0000 to U+001F and U+007F to U+009F.
pub open spec fn is_control(c: char) -> bool {
    code(c) <= 0x1F || 0x7F <= code(c) <= 0x9F
}

/// Characters with the Unicode property `White_Space`.
pub open spec fn is_whitespace(c: char) -> bool {
    let n = code(c);
    ||| 0x09 <= n <= 0x0D
    ||| n == 0x20
    ||| n == 0x85
    ||| n == 0xA0
    ||| n == 0x1680
    ||| 0x2000 <= n <= 0x200A
    ||| n == 0x2028
    ||| n == 0x2029
    ||| n == 0x202F
    ||| n == 0x205F
    ||| n == 0x3000
}

/// Tells whether `c` is an ASCII letter or digit.
pub fn char_is_alphanumeric(c: char) -> (b: bool)
    ensures
        b == is_alphanumeric(c),
{
    let n: u32 = c as u32;
    (0x30 <= n && n <= 0x39) || (0x41 <= n && n <= 0x5A) || (0x61 <= n && n <= 0x7A)
}

/// Tells whether `c` is a control character.
pub fn char_is_control(c: char) -> (b: bool)
    ensures
        b == is_control(c),
{
    let n: u32 = c as u32;
    n <= 0x1F || (0x7F <= n && n <= 0x9F)
}

/// Tells whether `c` is a white-space character.
pub fn char_is_whitespace(c: char) -> (b: bool)
    ensures
        b == is_whitespace(c),
{
    let n: u32 = c as u32;
    (0x09 <= n && n <= 0x0D) || n == 0x20 || n == 0x85 || n == 0xA0 || n == 0x1680 || (0x2000 <= n
        && n <= 0x200A) || n == 0x2028 || n == 0x2029 || n == 0x202F || n == 0x205F || n == 0x3000
}

} // verus!
