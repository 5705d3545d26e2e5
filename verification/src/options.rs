//! The options handle: a configuration bundle created independently of any
//! pattern, shared read-only across compilations, and destroyed exactly once.
//!
//! Destruction takes the handle by value, so a second release or a use after
//! release is unrepresentable.

use vstd::prelude::*;

use crate::codes::Encoding;

verus! {

/// An engine configuration bundle.
pub struct Options {
    encoding: Encoding,
    log_errors: bool,
}

impl Options {
    pub closed spec fn spec_encoding(&self) -> Encoding {
        self.encoding
    }

    pub closed spec fn spec_log_errors(&self) -> bool {
        self.log_errors
    }
}

/// A fresh configuration object with the engine defaults: UTF-8 subject
/// encoding, diagnostic logging on.
pub fn opt_new() -> (r: Options)
    ensures
        r.spec_encoding() == Encoding::UTF8,
        r.spec_log_errors() == true,
{
    Options { encoding: Encoding::UTF8, log_errors: true }
}

/// Releases the configuration object. Consuming the handle makes a second
/// release, or any later use, unrepresentable.
pub fn opt_delete(opt: Options) {
    let _ = opt;
}

/// The configured subject-text encoding. Read-only and never fails.
pub fn opt_encoding(opt: &Options) -> (r: Encoding)
    ensures
        r == opt.spec_encoding(),
{
    opt.encoding
}

/// Toggles diagnostic logging: any nonzero flag turns it on, zero turns it
/// off. Nothing else about the configuration changes.
pub fn opt_set_log_errors(opt: &mut Options, flag: i32)
    ensures
        final(opt).spec_log_errors() == (flag != 0),
        final(opt).spec_encoding() == old(opt).spec_encoding(),
{
    opt.log_errors = flag != 0;
}

} // verus!
