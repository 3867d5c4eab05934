//! Resolves the active window from a property query's outcome.
//!
//! The transport performs the synchronous "get property" round trip and hands
//! the outcome over as plain values; `resolve` turns that outcome into a
//! `Resolution`, keeping "property absent" and "query failed" distinct.

use vstd::prelude::*;

verus! {

/// Outcome of the transport-level "get property" query on the root surface,
/// as plain values.
///
/// `Reply(words)` is a successful round trip: `words` holds the reply's
/// payload read as 32-bit values, or is `None` when the reply was not
/// formatted as 32-bit values. `Fault` is a transport-level failure during
/// the query.
pub enum QueryOutcome {
    Reply(Option<Vec<u32>>),
    Fault,
}

/// What a resolution attempt yielded: the active window's handle, a missing
/// or empty property, or a broken session.
#[derive(Clone, Copy, Debug, PartialEq, Eq, Structural)]
pub enum Resolution {
    Active(u32),
    NotFound,
    Fault,
}

/// The resolution that a query outcome denotes: the first 32-bit value of a
/// non-empty reply, `NotFound` for an absent or empty property, `Fault` for
/// a failed round trip.
pub open spec fn resolution_of(q: QueryOutcome) -> Resolution {
    match q {
        QueryOutcome::Fault => Resolution::Fault,
        QueryOutcome::Reply(words_opt) => match words_opt {
            None => Resolution::NotFound,
            Some(words) => if words@.len() == 0 {
                Resolution::NotFound
            } else {
                Resolution::Active(words@[0])
            },
        },
    }
}

/// Extracts the active window from a query outcome.
pub fn resolve(q: &QueryOutcome) -> (r: Resolution)
    ensures
        r == resolution_of(*q),
{
    match q {
        QueryOutcome::Fault => Resolution::Fault,
        QueryOutcome::Reply(words_opt) => match words_opt {
            None => Resolution::NotFound,
            Some(words) => if words.len() == 0 {
                Resolution::NotFound
            } else {
                Resolution::Active(words[0])
            },
        },
    }
}

} // verus!
