//! The character class of a path identifier.

use vstd::prelude::*;

verus! {

/// Whether `char::is_alphanumeric` holds of a character beyond ASCII: the
/// Unicode `Alphabetic` property or one of the numeric general categories.
pub uninterp spec fn unicode_alphanumeric(c: char) -> bool;

/// The ASCII letters and digits.
pub open spec fn is_ascii_alphanumeric(c: char) -> bool {
    ('0' <= c && c <= '9') || ('a' <= c && c <= 'z') || ('A' <= c && c <= 'Z')
}

/// Alphanumeric in the sense of `char::is_alphanumeric`: within ASCII exactly
/// the letters and digits, beyond it what Unicode says.
pub open spec fn is_alphanumeric(c: char) -> bool {
    if c <= '\x7f' {
        is_ascii_alphanumeric(c)
    } else {
        unicode_alphanumeric(c)
    }
}

/// One of the punctuation characters an identifier may hold besides letters
/// and digits.
pub open spec fn is_special(c: char) -> bool {
    c == '.' || c == '_' || c == '+' || c == '-' || c == '#' || c == '[' || c == ']' || c == '<'
        || c == '>'
}

/// A character that may occur in an identifier.
pub open spec fn is_identifier_char(c: char) -> bool {
    is_alphanumeric(c) || is_special(c)
}

} // verus!
