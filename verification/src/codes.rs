//! Closed enumerations that cross the engine boundary as bare integers.
//!
//! Each enumeration carries an explicit ordinal contract: `..._to_int` gives
//! the documented wire value of a variant, and `..._from_int` accepts exactly
//! the documented values, rejecting unrecognized ordinals instead of silently
//! accepting them.

use vstd::prelude::*;

verus! {

/// Compile-time error state of a pattern handle. `NO_ERROR` is the only
/// non-failure value; every other variant names one way a pattern can be
/// rejected.
#[allow(non_camel_case_types)]
#[derive(Clone, Copy, Debug, PartialEq, Eq, Structural)]
pub enum ErrorCode {
    NO_ERROR,
    ERROR_INTERNAL,
    ERROR_BAD_ESCAPE,
    ERROR_BAD_CHAR_CLASS,
    ERROR_BAD_CHAR_RANGE,
    ERROR_MISSING_BRACKET,
    ERROR_MISSING_PAREN,
    ERROR_TRAILING_BACKSLASH,
    ERROR_REPEAT_ARGUMENT,
    ERROR_REPEAT_SIZE,
    ERROR_REPEAT_OP,
    ERROR_BAD_PERL_OP,
    ERROR_BAD_NAMED_CAPTURE,
    ERROR_PATTERN_TOO_LARGE,
}

/// Subject-text encoding carried by an options handle.
#[allow(non_camel_case_types)]
#[derive(Clone, Copy, Debug, PartialEq, Eq, Structural)]
pub enum Encoding {
    UNKNOWN,
    UTF8,
    LATIN1,
}

/// Where a match must begin and end within the `[start, end)` window of the
/// subject text. The ordinals 1, 2, 3 are part of the boundary contract.
#[allow(non_camel_case_types)]
#[derive(Clone, Copy, Debug, PartialEq, Eq, Structural)]
pub enum Anchor {
    UNANCHORED,
    ANCHOR_START,
    ANCHOR_BOTH,
}

pub open spec fn spec_error_code_ordinal(c: ErrorCode) -> int {
    match c {
        ErrorCode::NO_ERROR => 0,
        ErrorCode::ERROR_INTERNAL => 1,
        ErrorCode::ERROR_BAD_ESCAPE => 2,
        ErrorCode::ERROR_BAD_CHAR_CLASS => 3,
        ErrorCode::ERROR_BAD_CHAR_RANGE => 4,
        ErrorCode::ERROR_MISSING_BRACKET => 5,
        ErrorCode::ERROR_MISSING_PAREN => 6,
        ErrorCode::ERROR_TRAILING_BACKSLASH => 7,
        ErrorCode::ERROR_REPEAT_ARGUMENT => 8,
        ErrorCode::ERROR_REPEAT_SIZE => 9,
        ErrorCode::ERROR_REPEAT_OP => 10,
        ErrorCode::ERROR_BAD_PERL_OP => 11,
        ErrorCode::ERROR_BAD_NAMED_CAPTURE => 12,
        ErrorCode::ERROR_PATTERN_TOO_LARGE => 13,
    }
}

/// The wire value of an error code.
pub fn error_code_to_int(c: ErrorCode) -> (r: u32)
    ensures
        r as int == spec_error_code_ordinal(c),
{
    match c {
        ErrorCode::NO_ERROR => 0,
        ErrorCode::ERROR_INTERNAL => 1,
        ErrorCode::ERROR_BAD_ESCAPE => 2,
        ErrorCode::ERROR_BAD_CHAR_CLASS => 3,
        ErrorCode::ERROR_BAD_CHAR_RANGE => 4,
        ErrorCode::ERROR_MISSING_BRACKET => 5,
        ErrorCode::ERROR_MISSING_PAREN => 6,
        ErrorCode::ERROR_TRAILING_BACKSLASH => 7,
        ErrorCode::ERROR_REPEAT_ARGUMENT => 8,
        ErrorCode::ERROR_REPEAT_SIZE => 9,
        ErrorCode::ERROR_REPEAT_OP => 10,
        ErrorCode::ERROR_BAD_PERL_OP => 11,
        ErrorCode::ERROR_BAD_NAMED_CAPTURE => 12,
        ErrorCode::ERROR_PATTERN_TOO_LARGE => 13,
    }
}

/// Reads an error code off the wire; unrecognized ordinals are rejected.
pub fn error_code_from_int(v: u32) -> (r: Option<ErrorCode>)
    ensures
        r matches Some(c) ==> spec_error_code_ordinal(c) == v as int,
        r is Some <==> v <= 13,
{
    match v {
        0 => Some(ErrorCode::NO_ERROR),
        1 => Some(ErrorCode::ERROR_INTERNAL),
        2 => Some(ErrorCode::ERROR_BAD_ESCAPE),
        3 => Some(ErrorCode::ERROR_BAD_CHAR_CLASS),
        4 => Some(ErrorCode::ERROR_BAD_CHAR_RANGE),
        5 => Some(ErrorCode::ERROR_MISSING_BRACKET),
        6 => Some(ErrorCode::ERROR_MISSING_PAREN),
        7 => Some(ErrorCode::ERROR_TRAILING_BACKSLASH),
        8 => Some(ErrorCode::ERROR_REPEAT_ARGUMENT),
        9 => Some(ErrorCode::ERROR_REPEAT_SIZE),
        10 => Some(ErrorCode::ERROR_REPEAT_OP),
        11 => Some(ErrorCode::ERROR_BAD_PERL_OP),
        12 => Some(ErrorCode::ERROR_BAD_NAMED_CAPTURE),
        13 => Some(ErrorCode::ERROR_PATTERN_TOO_LARGE),
        _ => None,
    }
}

pub open spec fn spec_encoding_ordinal(e: Encoding) -> int {
    match e {
        Encoding::UNKNOWN => 0,
        Encoding::UTF8 => 1,
        Encoding::LATIN1 => 2,
    }
}

/// The wire value of an encoding.
pub fn encoding_to_int(e: Encoding) -> (r: u32)
    ensures
        r as int == spec_encoding_ordinal(e),
{
    match e {
        Encoding::UNKNOWN => 0,
        Encoding::UTF8 => 1,
        Encoding::LATIN1 => 2,
    }
}

/// Reads an encoding off the wire; unrecognized ordinals are rejected.
pub fn encoding_from_int(v: u32) -> (r: Option<Encoding>)
    ensures
        r matches Some(e) ==> spec_encoding_ordinal(e) == v as int,
        r is Some <==> v <= 2,
{
    match v {
        0 => Some(Encoding::UNKNOWN),
        1 => Some(Encoding::UTF8),
        2 => Some(Encoding::LATIN1),
        _ => None,
    }
}

pub open spec fn spec_anchor_ordinal(a: Anchor) -> int {
    match a {
        Anchor::UNANCHORED => 1,
        Anchor::ANCHOR_START => 2,
        Anchor::ANCHOR_BOTH => 3,
    }
}

/// The wire value of an anchor mode.
pub fn anchor_to_int(a: Anchor) -> (r: u32)
    ensures
        r as int == spec_anchor_ordinal(a),
{
    match a {
        Anchor::UNANCHORED => 1,
        Anchor::ANCHOR_START => 2,
        Anchor::ANCHOR_BOTH => 3,
    }
}

/// Reads an anchor mode off the wire; unrecognized ordinals are rejected.
pub fn anchor_from_int(v: u32) -> (r: Option<Anchor>)
    ensures
        r matches Some(a) ==> spec_anchor_ordinal(a) == v as int,
        r is Some <==> 1 <= v <= 3,
{
    match v {
        1 => Some(Anchor::UNANCHORED),
        2 => Some(Anchor::ANCHOR_START),
        3 => Some(Anchor::ANCHOR_BOTH),
        _ => None,
    }
}

/// Each wire value names at most one variant: reading a recognized ordinal
/// back gives exactly the variant it came from.
pub proof fn lemma_error_code_ordinal_injective(a: ErrorCode, b: ErrorCode)
    requires
        spec_error_code_ordinal(a) == spec_error_code_ordinal(b),
    ensures
        a == b,
{
}

/// Anchor ordinals are likewise one-to-one.
pub proof fn lemma_anchor_ordinal_injective(a: Anchor, b: Anchor)
    requires
        spec_anchor_ordinal(a) == spec_anchor_ordinal(b),
    ensures
        a == b,
{
}

} // verus!
