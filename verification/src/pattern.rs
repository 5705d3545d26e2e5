//! The compiled-pattern handle and the trusted interface to the engine.
//!
//! Compiling never fails in the error-channel sense: it always yields a
//! handle, and a malformed pattern is reported only through the handle's
//! error-code and error-message accessors. The handle owns the engine's
//! compiled programs; releasing it takes the handle by value, so a second
//! release or a use after release is unrepresentable. All matching and
//! introspection operate on a live borrow of the handle.
//!
//! What the engine computes is named, not restated: `pattern_ok`,
//! `pattern_slots`, `engine_find` and `engine_find_full` stand for the
//! outcomes of the engine's entry points, which depend on their arguments
//! alone, and every contract in the crate speaks of those names.

use vstd::prelude::*;

use crate::codes::ErrorCode;
use crate::marshal::{cre2_string_t, descriptors_view};
use crate::options::Options;
use vstd::string::StringExecFns;
use vstd::string::StringSliceAdditionalSpecFns;
use vstd::utf8::is_char_boundary;

verus! {

#[verifier::external_type_specification]
#[verifier::external_body]
pub struct ExRegex(regex::Regex);

/// Whether the engine accepts `p` as a well-formed pattern.
pub uninterp spec fn pattern_ok(p: Seq<char>) -> bool;

/// How many result slots a compiled pattern reports: one more than its
/// number of capture groups.
pub uninterp spec fn pattern_slots(p: Seq<char>) -> int;

/// The engine's positioned search: the leftmost match of pattern `p` in the
/// byte window `[start, end)` of `text`, as the match's byte span within
/// `text` and one captured text per slot (`None` for a group that did not
/// participate).
pub uninterp spec fn engine_find(p: Seq<char>, text: Seq<char>, start: int, end: int) -> Option<
    (int, int, Seq<Option<Seq<char>>>),
>;

/// The engine's whole-window search: the match of pattern `p` against exactly
/// the byte window `[start, end)` of `text`, succeeding only when the pattern
/// spans that whole window.
pub uninterp spec fn engine_find_full(p: Seq<char>, text: Seq<char>, start: int, end: int) -> Option<
    Seq<Option<Seq<char>>>,
>;

/// How a compile attempt failed, as far as the engine tells it apart.
enum EngineError {
    Syntax(String),
    TooBig,
    Other,
}

/// Relies on `regex::Regex::new` (regex 1.13): compiling a pattern text under
/// the default configuration is deterministic, so success is a function of
/// the pattern text alone. Beside the pattern itself it compiles the same
/// text wrapped as `\A(?:p)\z`, the engine's whole-window program; the
/// engine's grammar accepts any well-formed pattern inside a non-capturing
/// group, so the second compile fails at most on the engine's compiled-size
/// heuristic, and such a failure is reported by the second slot being `None`
/// rather than by an error.
#[verifier::external_body]
fn engine_compile(pattern: &str) -> (r: Result<(regex::Regex, Option<regex::Regex>), EngineError>)
    ensures
        r is Ok <==> pattern_ok(pattern@),
{
    let re = match regex::Regex::new(pattern) {
        Ok(re) => re,
        Err(regex::Error::Syntax(msg)) => return Err(EngineError::Syntax(msg)),
        Err(regex::Error::CompiledTooBig(_)) => return Err(EngineError::TooBig),
        Err(_) => return Err(EngineError::Other),
    };
    let whole = regex::Regex::new(&format!("\\A(?:{})\\z", pattern)).ok();
    Ok((re, whole))
}

/// A compiled pattern: the engine's programs together with the derived
/// read-only facts that introspection reports.
pub struct Pattern {
    pattern: String,
    compiled: Option<regex::Regex>,
    anchored: Option<regex::Regex>,
    groups: usize,
    code: ErrorCode,
    message: String,
}

/// The contents of a positioned-search result, for stating what the trusted
/// search returns.
pub open spec fn found_view(r: Option<(usize, usize, Vec<cre2_string_t>)>) -> Option<
    (int, int, Seq<Option<Seq<char>>>),
> {
    match r {
        Some(t) => Some((t.0 as int, t.1 as int, descriptors_view(t.2@))),
        None => None,
    }
}

/// The contents of a whole-window search result.
pub open spec fn found_full_view(r: Option<Vec<cre2_string_t>>) -> Option<Seq<Option<Seq<char>>>> {
    match r {
        Some(v) => Some(descriptors_view(v@)),
        None => None,
    }
}

impl Pattern {
    /// The pattern text this handle was compiled from.
    pub closed spec fn text(&self) -> Seq<char> {
        self.pattern@
    }

    /// Whether compilation succeeded and the handle can match.
    pub closed spec fn valid(&self) -> bool {
        self.compiled is Some
    }

    /// Whether the whole-window program is available (see `engine_compile`).
    pub closed spec fn full_ok(&self) -> bool {
        self.anchored is Some
    }

    pub closed spec fn spec_groups(&self) -> int {
        self.groups as int
    }

    pub closed spec fn spec_error_code(&self) -> ErrorCode {
        self.code
    }

    pub closed spec fn spec_error_message(&self) -> Seq<char> {
        self.message@
    }

    /// What every handle that `new` returns satisfies: the error code is
    /// `NO_ERROR` exactly when the engine accepted the pattern, the error
    /// message is non-empty exactly otherwise, and the stored capture-group
    /// count is the engine's.
    pub open spec fn wf(&self) -> bool {
        &&& (self.valid() <==> self.spec_error_code() == ErrorCode::NO_ERROR)
        &&& (self.valid() <==> pattern_ok(self.text()))
        &&& (self.valid() ==> self.spec_groups() == pattern_slots(self.text()) - 1)
        &&& (self.valid() ==> self.spec_error_message() == Seq::<char>::empty())
        &&& (!self.valid() ==> self.spec_error_message().len() > 0)
        &&& (self.full_ok() ==> self.valid())
    }

    /// Relies on `regex::Regex::captures_len` (regex 1.13): the number of
    /// result slots, one more than the number of capture groups and so always
    /// at least one; a function of the pattern the program was compiled from,
    /// which is always `self.pattern` (see `new`).
    #[verifier::external_body]
    fn engine_captures_len(&self) -> (r: usize)
        requires
            self.valid(),
        ensures
            r as int == pattern_slots(self.text()),
            r >= 1,
    {
        self.compiled.as_ref().unwrap().captures_len()
    }

    /// Relies on `regex::Regex::captures_at` (regex 1.13): the leftmost match
    /// of the compiled program in `text[..end]` at or after byte offset
    /// `start`, with its byte span and one slot per capture group, slot 0
    /// being the overall match. `self.compiled` is always the program built
    /// from `self.pattern` (see `new`), so the outcome is a function of the
    /// pattern text, the subject text and the window alone.
    #[verifier::external_body]
    pub(crate) fn engine_search(&self, text: &str, start: usize, end: usize) -> (r: Option<
        (usize, usize, Vec<cre2_string_t>),
    >)
        requires
            self.valid(),
            start <= end,
            end <= text.spec_bytes().len(),
            is_char_boundary(text.spec_bytes(), start as int),
            is_char_boundary(text.spec_bytes(), end as int),
        ensures
            found_view(r) == engine_find(self.text(), text@, start as int, end as int),
            r matches Some(t) ==> {
                &&& t.2@.len() == pattern_slots(self.text())
                &&& t.2@.len() >= 1
                &&& t.2@[0]@ is Some
                &&& start <= t.0 <= t.1 <= end
            },
    {
        let re = self.compiled.as_ref().unwrap();
        let caps = match re.captures_at(&text[..end], start) {
            Some(c) => c,
            None => return None,
        };
        let span = caps.get(0).unwrap();
        let mut slots: Vec<cre2_string_t> = Vec::new();
        for g in caps.iter() {
            slots.push(cre2_string_t { data: g.map(|m| m.as_str().to_owned()) });
        }
        Some((span.start(), span.end(), slots))
    }

    /// Relies on `regex::Regex::captures` (regex 1.13), called on the
    /// whole-window program (`\A(?:p)\z`, see `engine_compile`) against
    /// `text[start..end]`: it succeeds exactly when the pattern matches that
    /// whole window, and the non-capturing wrapper leaves the slot count and
    /// order unchanged, slot 0 being the overall match. A function of the
    /// pattern text, the subject text and the window alone.
    #[verifier::external_body]
    pub(crate) fn engine_search_full(&self, text: &str, start: usize, end: usize) -> (r: Option<
        Vec<cre2_string_t>,
    >)
        requires
            self.full_ok(),
            start <= end,
            end <= text.spec_bytes().len(),
            is_char_boundary(text.spec_bytes(), start as int),
            is_char_boundary(text.spec_bytes(), end as int),
        ensures
            found_full_view(r) == engine_find_full(self.text(), text@, start as int, end as int),
            r matches Some(v) ==> {
                &&& v@.len() == pattern_slots(self.text())
                &&& v@.len() >= 1
                &&& v@[0]@ is Some
            },
    {
        let re = self.anchored.as_ref().unwrap();
        let caps = match re.captures(&text[start..end]) {
            Some(c) => c,
            None => return None,
        };
        let mut slots: Vec<cre2_string_t> = Vec::new();
        for g in caps.iter() {
            slots.push(cre2_string_t { data: g.map(|m| m.as_str().to_owned()) });
        }
        Some(slots)
    }

    /// Whether the whole-window program is present, for dispatching a
    /// both-ends-anchored request.
    pub(crate) fn has_full_program(&self) -> (b: bool)
        ensures
            b == self.full_ok(),
    {
        self.anchored.is_some()
    }
}

/// Compiles `pattern` into a fresh handle. A handle is returned even for a
/// malformed pattern: failure shows only in the handle's error code, which is
/// `NO_ERROR` exactly when the engine accepted the pattern, with a non-empty
/// error message otherwise. The pattern text itself round-trips unchanged.
/// `pattern_len` is the pattern's length in bytes; `opt` is the configuration
/// bundle, shared read-only.
pub fn new(pattern: &str, pattern_len: usize, opt: &Options) -> (r: Pattern)
    requires
        pattern_len == pattern.spec_bytes().len(),
    ensures
        r.wf(),
        r.text() == pattern@,
        r.valid() <==> pattern_ok(pattern@),
{
    match engine_compile(pattern) {
        Ok((re, whole)) => {
            let mut r = Pattern {
                pattern: pattern.to_owned(),
                compiled: Some(re),
                anchored: whole,
                groups: 0,
                code: ErrorCode::NO_ERROR,
                message: String::new(),
            };
            let slots = r.engine_captures_len();
            r.groups = slots - 1;
            r
        },
        Err(fault) => {
            let (code, message): (ErrorCode, String) = match fault {
                EngineError::Syntax(s) => {
                    if s.as_str().is_empty() {
                        (ErrorCode::ERROR_INTERNAL, String::from_str("invalid pattern"))
                    } else {
                        (ErrorCode::ERROR_INTERNAL, s)
                    }
                },
                EngineError::TooBig => (
                    ErrorCode::ERROR_PATTERN_TOO_LARGE,
                    String::from_str("pattern too large"),
                ),
                EngineError::Other => (ErrorCode::ERROR_INTERNAL, String::from_str("internal error")),
            };
            proof {
                reveal_strlit("invalid pattern");
                reveal_strlit("pattern too large");
                reveal_strlit("internal error");
            }
            Pattern {
                pattern: pattern.to_owned(),
                compiled: None,
                anchored: None,
                groups: 0,
                code,
                message,
            }
        },
    }
}

/// Releases the compiled pattern. Consuming the handle makes a second
/// release, or any later use, unrepresentable.
pub fn delete(rex: Pattern) {
    let _ = rex;
}

/// The pattern text this handle was compiled from; it round-trips the
/// compile input exactly.
pub fn pattern(rex: &Pattern) -> (r: String)
    ensures
        r@ == rex.text(),
{
    rex.pattern.clone()
}

/// The number of capture groups the pattern declares, excluding the implicit
/// whole-match slot. Fixed at compile time: it depends on nothing but the
/// handle.
pub fn num_capturing_groups(rex: &Pattern) -> (r: usize)
    ensures
        r as int == rex.spec_groups(),
{
    rex.groups
}

/// An opaque cost metric of the compiled pattern; this binding reports the
/// pattern text's byte length.
pub fn program_size(rex: &Pattern) -> (r: usize)
    ensures
        r as int == vstd::utf8::encode_utf8(rex.text()).len(),
{
    rex.pattern.as_str().as_bytes().len()
}

/// The handle's compile-time error state; `NO_ERROR` exactly when the
/// pattern was accepted.
pub fn error_code(rex: &Pattern) -> (r: ErrorCode)
    ensures
        r == rex.spec_error_code(),
{
    rex.code
}

/// The handle's compile-time error message: empty when the error code is
/// `NO_ERROR`, non-empty otherwise.
pub fn error_string(rex: &Pattern) -> (r: String)
    ensures
        r@ == rex.spec_error_message(),
{
    rex.message.clone()
}

/// Capture-group count is stable: any two introspection results on the same
/// handle agree.
pub proof fn lemma_capture_count_stable(rex: &Pattern, a: usize, b: usize)
    requires
        a as int == rex.spec_groups(),
        b as int == rex.spec_groups(),
    ensures
        a == b,
{
}

} // verus!
