//! The three matching protocols, unified behind one positioned primitive.
//!
//! Every protocol follows the same extraction discipline: run the engine over
//! a byte window of the subject text, then copy each result descriptor into
//! the caller's container before returning, so the returned strings are fully
//! owned and outlive any later engine call. The returned count is `1` on a
//! match, `0` on no match, and negative for an engine-level failure, which is
//! propagated, never mapped to "no match".

use vstd::prelude::*;

use crate::codes::{Anchor, ErrorCode};
use crate::marshal::{collect_slots, slot_text};
use crate::options::{opt_delete, opt_new};
use crate::pattern::{
    Pattern, delete, engine_find, engine_find_full, error_code, new, pattern_ok,
};
use vstd::string::StringSliceAdditionalSpecFns;
use vstd::utf8::{encode_utf8_valid_utf8, is_char_boundary, is_char_boundary_start_end_of_seq};

verus! {

/// The caller's container after a successful extraction: it keeps its
/// requested width, and each slot holds the captured text of the matching
/// engine slot, or the empty string where the engine reported none.
pub open spec fn slots_copied(
    slots: Seq<Option<Seq<char>>>,
    before: Seq<String>,
    after: Seq<String>,
) -> bool {
    &&& after.len() == before.len()
    &&& forall|i: int| 0 <= i < after.len() ==> after[i]@ == slot_text(slots, i)
}

/// Positioned match on a compiled handle over the byte window
/// `[start_pos, end_pos)` of `text`, in one of three anchor modes:
/// `UNANCHORED` reports the leftmost match anywhere in the window,
/// `ANCHOR_START` only a match beginning exactly at `start_pos`, and
/// `ANCHOR_BOTH` only a match spanning exactly the whole window. On a match
/// the requested slots are filled in declaration order, slot 0 being the
/// overall match, and the count is 1; with no match the count is 0 and the
/// container is untouched; a negative count reports an engine-level failure
/// (only possible for `ANCHOR_BOTH`, when the whole-window program is
/// unavailable). Offsets are byte offsets and must lie on character
/// boundaries; splitting a character is a caller contract violation, as is
/// matching on a handle whose error code is not `NO_ERROR`.
pub fn matches(
    rex: &Pattern,
    text: &str,
    start_pos: usize,
    end_pos: usize,
    anchor: Anchor,
    m: &mut Vec<String>,
) -> (r: isize)
    requires
        rex.valid(),
        start_pos <= end_pos,
        end_pos <= text.spec_bytes().len(),
        is_char_boundary(text.spec_bytes(), start_pos as int),
        is_char_boundary(text.spec_bytes(), end_pos as int),
    ensures
        ({
            let em = engine_find(rex.text(), text@, start_pos as int, end_pos as int);
            let fm = engine_find_full(rex.text(), text@, start_pos as int, end_pos as int);
            match anchor {
                Anchor::UNANCHORED => {
                    &&& (r == 1 <==> em is Some)
                    &&& (r == 0 <==> em is None)
                    &&& (em matches Some(t) ==> slots_copied(t.2, old(m)@, final(m)@))
                    &&& (em matches Some(t) ==> start_pos as int <= t.0 <= t.1 <= end_pos as int)
                    &&& (em is None ==> *final(m) == *old(m))
                },
                Anchor::ANCHOR_START => {
                    &&& (r == 1 <==> (em matches Some(t) && t.0 == start_pos as int))
                    &&& (r == 0 <==> !(em matches Some(t) && t.0 == start_pos as int))
                    &&& (em matches Some(t) ==> (t.0 == start_pos as int ==> slots_copied(
                        t.2,
                        old(m)@,
                        final(m)@,
                    )))
                    &&& (em matches Some(t) ==> start_pos as int <= t.0 <= t.1 <= end_pos as int)
                    &&& (r == 0 ==> *final(m) == *old(m))
                },
                Anchor::ANCHOR_BOTH => {
                    &&& (r == -1 <==> !rex.full_ok())
                    &&& (rex.full_ok() ==> {
                        &&& (r == 1 <==> fm is Some)
                        &&& (r == 0 <==> fm is None)
                        &&& (fm matches Some(s) ==> slots_copied(s, old(m)@, final(m)@))
                        &&& (fm is None ==> *final(m) == *old(m))
                    })
                    &&& (r == -1 ==> *final(m) == *old(m))
                },
            }
        }),
{
    match anchor {
        Anchor::UNANCHORED => {
            match rex.engine_search(text, start_pos, end_pos) {
                Some(found) => {
                    collect_slots(&found.2, m);
                    1
                },
                None => 0,
            }
        },
        Anchor::ANCHOR_START => {
            match rex.engine_search(text, start_pos, end_pos) {
                Some(found) => {
                    if found.0 == start_pos {
                        collect_slots(&found.2, m);
                        1
                    } else {
                        0
                    }
                },
                None => 0,
            }
        },
        Anchor::ANCHOR_BOTH => {
            if !rex.has_full_program() {
                -1
            } else {
                match rex.engine_search_full(text, start_pos, end_pos) {
                    Some(found) => {
                        collect_slots(&found, m);
                        1
                    },
                    None => 0,
                }
            }
        },
    }
}

/// Full match: the entire subject text must match the pattern, byte 0 to the
/// end. Equivalent to a positioned match over the whole text with
/// `ANCHOR_BOTH`.
pub fn full_match(rex: &Pattern, text: &str, m: &mut Vec<String>) -> (r: isize)
    requires
        rex.valid(),
    ensures
        ({
            let fm = engine_find_full(rex.text(), text@, 0, text.spec_bytes().len() as int);
            &&& (r == -1 <==> !rex.full_ok())
            &&& (rex.full_ok() ==> {
                &&& (r == 1 <==> fm is Some)
                &&& (r == 0 <==> fm is None)
                &&& (fm matches Some(s) ==> slots_copied(s, old(m)@, final(m)@))
                &&& (fm is None ==> *final(m) == *old(m))
            })
            &&& (r == -1 ==> *final(m) == *old(m))
        }),
{
    let end = text.as_bytes().len();
    proof {
        encode_utf8_valid_utf8(text@);
        is_char_boundary_start_end_of_seq(text.spec_bytes());
    }
    matches(rex, text, 0, end, Anchor::ANCHOR_BOTH, m)
}

/// One-shot convenience match: compiles `pattern` internally, scans the whole
/// subject text unanchored, fills the requested slots, and releases the
/// temporary handles before returning. The count is 1 on a match, 0 on no
/// match, and -1 when the pattern itself is malformed.
pub fn easy_match(pattern: &str, text: &str, m: &mut Vec<String>) -> (r: i32)
    ensures
        ({
            let em = engine_find(pattern@, text@, 0, text.spec_bytes().len() as int);
            &&& (r == -1 <==> !pattern_ok(pattern@))
            &&& (pattern_ok(pattern@) ==> {
                &&& (r == 1 <==> em is Some)
                &&& (r == 0 <==> em is None)
                &&& (em matches Some(t) ==> slots_copied(t.2, old(m)@, final(m)@))
                &&& (em is None ==> *final(m) == *old(m))
            })
            &&& (r == -1 ==> *final(m) == *old(m))
        }),
{
    let opt = opt_new();
    let rex = new(pattern, pattern.as_bytes().len(), &opt);
    let r: i32 = if error_code(&rex) != ErrorCode::NO_ERROR {
        -1
    } else {
        let end = text.as_bytes().len();
        proof {
            encode_utf8_valid_utf8(text@);
            is_char_boundary_start_end_of_seq(text.spec_bytes());
        }
        let rc = matches(&rex, text, 0, end, Anchor::UNANCHORED, m);
        if rc == 1 {
            1
        } else {
            0
        }
    };
    delete(rex);
    opt_delete(opt);
    r
}

} // verus!
