//! A binding facade over a regular-expression engine.
//!
//! The crate marshals between host-owned strings and the engine's
//! descriptor-based result protocol, manages compiled-pattern and options
//! handles with exactly-once release, exposes read-only introspection on a
//! compiled pattern, and offers the engine's three matching protocols:
//! an unanchored one-shot scan, a positioned match over a byte window with an
//! explicit anchor mode, and a whole-text full match. The engine itself is
//! external; every call into it goes through a small trusted interface whose
//! contract names what the engine returns.

use vstd::prelude::*;

mod codes;
mod marshal;
pub mod matching;
mod options;
mod pattern;

pub use codes::{
    Anchor, Encoding, ErrorCode, anchor_from_int, anchor_to_int, encoding_from_int,
    encoding_to_int, error_code_from_int, error_code_to_int, lemma_anchor_ordinal_injective,
    lemma_error_code_ordinal_injective, spec_anchor_ordinal, spec_encoding_ordinal,
    spec_error_code_ordinal,
};
pub use marshal::{
    Matches, cre2_string_t, collect_slots, descriptor_to_string, descriptors_view, slot_text,
};
pub use matching::{easy_match, full_match, slots_copied};
pub use options::{Options, opt_delete, opt_encoding, opt_new, opt_set_log_errors};
pub use pattern::{
    Pattern, delete, engine_find, engine_find_full, error_code, error_string,
    lemma_capture_count_stable, new, num_capturing_groups, pattern, pattern_ok, pattern_slots,
    program_size,
};

verus! {

/// Version of this binding's interface.
pub fn version_string() -> (r: String)
    ensures
        r@ == "0.0"@,
{
    String::from_str("0.0")
}

/// Current interface number of this binding.
pub fn version_interface_current() -> (r: i32)
    ensures
        r == 0,
{
    0
}

/// Revision of the current interface number.
pub fn version_interface_revision() -> (r: i32)
    ensures
        r == 0,
{
    0
}

/// How many earlier interface numbers this binding still serves.
pub fn version_interface_age() -> (r: i32)
    ensures
        r == 0,
{
    0
}

} // verus!
