//! Primitive marshaling between the engine's result descriptors and
//! host-owned strings.
//!
//! The engine reports each result slot as a (byte pointer, length) descriptor
//! whose bytes live in an engine-owned arena; `cre2_string_t` models such a
//! descriptor as an already-copied, owned value, with `None` standing for the
//! null pointer that the engine uses for a slot whose group did not
//! participate in the match. Conversion to a host string therefore never
//! crashes and never reads garbage: a missing descriptor becomes the empty
//! string.

use vstd::prelude::*;

verus! {

/// One engine result descriptor. `data` is the owned copy of the byte range
/// the descriptor pointed at; `None` stands for the engine's null pointer.
#[allow(non_camel_case_types)]
pub struct cre2_string_t {
    pub data: Option<String>,
}

impl View for cre2_string_t {
    type V = Option<Seq<char>>;

    open spec fn view(&self) -> Option<Seq<char>> {
        match self.data {
            Some(s) => Some(s@),
            None => None,
        }
    }
}

impl Default for cre2_string_t {
    /// A fresh descriptor, ready for the engine to fill: the null pointer.
    fn default() -> (r: cre2_string_t)
        ensures
            r@ is None,
    {
        cre2_string_t { data: None }
    }
}

/// The contents of a sequence of descriptors.
pub open spec fn descriptors_view(s: Seq<cre2_string_t>) -> Seq<Option<Seq<char>>> {
    s.map_values(|d: cre2_string_t| d@)
}

/// What a result container must hold at slot `i` for the engine result
/// `slots`: the captured text, or the empty string for a slot the engine left
/// null or never produced.
pub open spec fn slot_text(slots: Seq<Option<Seq<char>>>, i: int) -> Seq<char> {
    if 0 <= i < slots.len() && slots[i] is Some {
        slots[i]->0
    } else {
        Seq::empty()
    }
}

/// Converts one result descriptor back into an owned host string. A null
/// descriptor maps to the empty string, never to a crash or garbage text.
pub fn descriptor_to_string(d: &cre2_string_t) -> (r: String)
    ensures
        d@ matches Some(s) ==> r@ == s,
        d@ is None ==> r@ == Seq::<char>::empty(),
{
    match &d.data {
        Some(s) => s.clone(),
        None => String::new(),
    }
}

/// Copies every descriptor back into the caller's container, slot by slot:
/// the container keeps its requested width, each present descriptor becomes
/// an owned string, and every slot beyond the descriptors the engine filled
/// becomes the empty string.
pub fn collect_slots(slots: &Vec<cre2_string_t>, m: &mut Vec<String>)
    ensures
        final(m)@.len() == old(m)@.len(),
        forall|i: int|
            0 <= i < final(m)@.len() ==> final(m)@[i]@ == slot_text(descriptors_view(slots@), i),
{
    let n = m.len();
    let mut out: Vec<String> = Vec::new();
    let mut i: usize = 0;
    while i < n
        invariant
            i <= n,
            out@.len() == i as int,
            forall|j: int|
                0 <= j < i as int ==> out@[j]@ == slot_text(descriptors_view(slots@), j),
        decreases n - i,
    {
        if i < slots.len() {
            out.push(descriptor_to_string(&slots[i]));
        } else {
            out.push(String::new());
        }
        i += 1;
    }
    *m = out;
}

/// The result container for a match request: `new(n)` builds a container of
/// `n + 1` empty slots, one for the overall match and one per requested
/// capture group.
pub struct Matches(pub Vec<String>);

impl Matches {
    /// An all-empty container wide enough for `num_matches` capture groups
    /// plus the overall-match slot.
    pub fn new(num_matches: u32) -> (r: Vec<String>)
        ensures
            r@.len() == num_matches as int + 1,
            forall|i: int| 0 <= i < r@.len() ==> r@[i]@ == Seq::<char>::empty(),
    {
        let n = num_matches as usize;
        let mut r: Vec<String> = Vec::new();
        let mut i: usize = 0;
        while i < n
            invariant
                i <= n,
                r@.len() == i as int,
                forall|j: int| 0 <= j < i as int ==> r@[j]@ == Seq::<char>::empty(),
            decreases n - i,
        {
            r.push(String::new());
            i += 1;
        }
        r.push(String::new());
        r
    }
}

} // verus!
