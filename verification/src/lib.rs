//! A typed client core for a local flashcard automation service.
//!
//! The service accepts a uniform JSON envelope (an action name, a protocol
//! version, and action-specific parameters) and answers with an envelope that
//! carries either a result payload or an error string.  This crate holds the
//! verified core of such a client: the envelope codec with its sanitization
//! and error-resolution rules, the note builder with its validation order,
//! and the media-source resolution pipeline.  The unverified shell that
//! performs HTTP and file transfers lives outside the library and exchanges
//! plain values with it.

pub mod anki;
pub mod b64;
pub mod error;
pub mod decks;
pub mod fields;
pub mod generic;
pub mod json;
pub mod notes;
pub mod result;

use vstd::prelude::*;

verus! {

/// A normalized integer identifier wrapper used for all remote-assigned IDs
/// (deck IDs, note IDs).  Stored as a 64-bit signed integer.
#[derive(Clone, Copy, Debug, PartialEq, Eq, Structural)]
pub struct Number(i64);

impl View for Number {
    type V = int;

    closed spec fn view(&self) -> int {
        self.0 as int
    }
}

impl Number {
    /// Wraps an identifier value.
    pub fn new(n: i64) -> (r: Number)
        ensures
            r@ == n as int,
    {
        Number(n)
    }

    /// The wrapped identifier value.
    pub fn value(&self) -> (r: i64)
        ensures
            r as int == self@,
    {
        self.0
    }

    /// Converts a slice of identifiers into a vector of `Number`.
    pub fn from_slice_to_vec(slice: &[i64]) -> (r: Vec<Number>)
        ensures
            r@.len() == slice@.len(),
            forall|i: int| 0 <= i < r@.len() ==> r@[i]@ == slice@[i] as int,
    {
        let mut out: Vec<Number> = Vec::new();
        let mut k: usize = 0;
        while k < slice.len()
            invariant
                k <= slice@.len(),
                out@.len() == k as int,
                forall|i: int| 0 <= i < k as int ==> out@[i]@ == slice@[i] as int,
            decreases slice@.len() - k as int,
        {
            out.push(Number::new(slice[k]));
            k = k + 1;
        }
        out
    }
}

} // verus!
