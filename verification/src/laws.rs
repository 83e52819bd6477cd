//! What holds of a build and of the program built with it, taken together.

use crate::embed::embedded_moment;
use crate::fragment::lemma_fragment_reads_back;
use crate::generator::{lemma_timestamp_text_is_plain, may_build, moment_fragment};
use crate::moment::MomentView;
use crate::rfc3339::{is_timestamp_text, rfc3339_moment, rfc3339_text};
use vstd::prelude::*;

verus! {

/// Whether the writer and the parser agree on `moment`: its text is in the
/// RFC 3339 alphabet, and reads as `moment` again.
pub open spec fn reads_back(moment: MomentView) -> bool {
    is_timestamp_text(rfc3339_text(moment)) && rfc3339_moment(rfc3339_text(moment)) == Some(
        moment,
    )
}

/// A build under a timestamp that reads as `moment` ends with a fragment,
/// and the program built with it reads `moment` from that fragment: the same
/// instant under the same offset, whose text is the timestamp in its
/// canonical form. This holds wherever the parser reads back what the writer
/// wrote for `moment`.
pub proof fn lemma_round_trip(timestamp: Seq<char>, moment: MomentView, built: Option<Seq<char>>)
    requires
        rfc3339_moment(timestamp) == Some(moment),
        reads_back(moment),
        may_build(Some(timestamp), built),
    ensures
        built == Some(moment_fragment(moment)),
        embedded_moment(built->0) == Some(moment),
{
    lemma_timestamp_text_is_plain(rfc3339_text(moment));
    lemma_fragment_reads_back(rfc3339_text(moment));
}

/// A fragment is read as one moment, however often it is read.
pub proof fn lemma_embedded_moment_is_stable(
    fragment: Seq<char>,
    first: Option<MomentView>,
    second: Option<MomentView>,
)
    requires
        first == embedded_moment(fragment),
        second == embedded_moment(fragment),
    ensures
        first == second,
{
}

/// With `ENSOULMENT_TIMESTAMP` set, its value alone decides what is built:
/// two builds under one value, on whatever hosts and at whatever times, end
/// alike, and where they end with a fragment the two programs read the same
/// moment.
pub proof fn lemma_same_timestamp_same_build(
    timestamp: Seq<char>,
    first: Option<Seq<char>>,
    second: Option<Seq<char>>,
)
    requires
        may_build(Some(timestamp), first),
        may_build(Some(timestamp), second),
    ensures
        first == second,
        first is Some ==> embedded_moment(first->0) == embedded_moment(second->0),
{
}

/// A build under a value that is no RFC 3339 timestamp ends with no
/// fragment.
pub proof fn lemma_rejected_timestamp_builds_nothing(timestamp: Seq<char>, built: Option<Seq<char>>)
    requires
        rfc3339_moment(timestamp) is None,
        may_build(Some(timestamp), built),
    ensures
        built is None,
{
}

} // verus!
