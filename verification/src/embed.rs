//! The embed site: what a program reads out of the fragment it was built
//! with.

use crate::fragment::{fragment_literal, read_fragment};
use crate::moment::{BuildMoment, MomentView};
use crate::rfc3339::{parse_rfc3339, rfc3339_moment};
use vstd::prelude::*;

verus! {

/// The moment that `fragment` evaluates to: what its literal reads as.
/// `None` where `fragment` is no fragment, or its literal no timestamp.
pub open spec fn embedded_moment(fragment: Seq<char>) -> Option<MomentView> {
    match fragment_literal(fragment) {
        Some(literal) => rfc3339_moment(literal),
        None => None,
    }
}

/// The moment when the program was built, read from the fragment that the
/// build wrote.
///
/// The program keeps the result for as long as it runs; `None` means that
/// the fragment is damaged, and the program cannot start.
pub fn ensoulment(fragment: &str) -> (moment: Option<BuildMoment>)
    ensures
        match moment {
            Some(read) => embedded_moment(fragment@) == Some(read@),
            None => embedded_moment(fragment@) is None,
        },
{
    match read_fragment(fragment) {
        Some(literal) => match parse_rfc3339(literal.as_str()) {
            Ok(read) => Some(read),
            Err(_) => None,
        },
        None => None,
    }
}

} // verus!
