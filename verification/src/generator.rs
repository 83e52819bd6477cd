//! The build step: choose the moment, write it down, wrap it in a fragment.

use crate::error::EnsoulmentBuildError;
use crate::fragment::{
    fragment_literal, fragment_text, is_plain_literal, lemma_fragment_reads_back, render_fragment,
};
use crate::moment::{BuildMoment, MomentView};
use crate::rfc3339::{is_timestamp_text, local_now, parse_rfc3339, rfc3339_moment, rfc3339_text};
use vstd::prelude::*;

verus! {

/// The value of `ENSOULMENT_TIMESTAMP` as a text, where it is set.
pub open spec fn env_text(env: Option<&str>) -> Option<Seq<char>> {
    match env {
        Some(text) => Some(text@),
        None => None,
    }
}

/// The moment that a selection ended with, if it ended with one.
pub open spec fn selected(chosen: Result<BuildMoment, EnsoulmentBuildError>) -> Option<
    MomentView,
> {
    match chosen {
        Ok(moment) => Some(moment@),
        Err(_) => None,
    }
}

/// The fragment that a build ended with, if it ended with one.
pub open spec fn built_text(built: Result<String, EnsoulmentBuildError>) -> Option<Seq<char>> {
    match built {
        Ok(fragment) => Some(fragment@),
        Err(_) => None,
    }
}

/// Whether a build under `env` may choose `chosen`.
///
/// With the variable set, its value decides: the moment it reads as is
/// chosen, and nothing is chosen where it reads as none. With the variable
/// unset, the clock decides, and any moment that can be represented may
/// come of it.
pub open spec fn may_select(env: Option<Seq<char>>, chosen: Option<MomentView>) -> bool {
    match env {
        Some(text) => chosen == rfc3339_moment(text),
        None => chosen matches Some(moment) && moment.representable(),
    }
}

/// The fragment that embeds `moment`: its RFC 3339 text as the literal.
pub open spec fn moment_fragment(moment: MomentView) -> Seq<char> {
    fragment_text(rfc3339_text(moment))
}

/// Whether a build under `env` may end with `built`: the fragment of a
/// moment that it may choose, or no fragment where it may choose none.
pub open spec fn may_build(env: Option<Seq<char>>, built: Option<Seq<char>>) -> bool {
    match env {
        Some(text) => built == match rfc3339_moment(text) {
            Some(moment) => Some(moment_fragment(moment)),
            None => None,
        },
        None => exists|moment: MomentView|
            moment.representable() && built == Some(#[trigger] moment_fragment(moment)),
    }
}

/// Every text in the RFC 3339 alphabet is a plain literal.
pub proof fn lemma_timestamp_text_is_plain(text: Seq<char>)
    requires
        is_timestamp_text(text),
    ensures
        is_plain_literal(text),
{
}

/// Reads the moment that a value of `ENSOULMENT_TIMESTAMP` stands for.
///
/// Any value is read, the empty one too: a value that is no RFC 3339
/// timestamp is an error, never a reason to fall back on the clock.
pub fn moment_from_env(timestamp: &str) -> (chosen: Result<BuildMoment, EnsoulmentBuildError>)
    ensures
        selected(chosen) == rfc3339_moment(timestamp@),
        chosen matches Ok(moment) ==> moment@.representable(),
{
    match parse_rfc3339(timestamp) {
        Ok(moment) => Ok(moment),
        Err(error) => Err(EnsoulmentBuildError::from(error)),
    }
}

/// Chooses the moment of this build: the one that `ENSOULMENT_TIMESTAMP`
/// names where it is set, the local time and offset of the host otherwise.
pub fn select_moment(env: Option<&str>) -> (chosen: Result<BuildMoment, EnsoulmentBuildError>)
    ensures
        may_select(env_text(env), selected(chosen)),
        chosen matches Ok(moment) ==> moment@.representable(),
{
    match env {
        Some(timestamp) => moment_from_env(timestamp),
        None => Ok(local_now()),
    }
}

/// Writes the fragment that embeds `moment`.
pub fn fragment_for(moment: &BuildMoment) -> (fragment: String)
    ensures
        fragment@ == moment_fragment(moment@),
        fragment_literal(fragment@) == Some(rfc3339_text(moment@)),
{
    let literal = moment.to_rfc3339();
    proof {
        lemma_timestamp_text_is_plain(literal@);
        lemma_fragment_reads_back(literal@);
    }
    render_fragment(literal.as_str())
}

/// Runs the build step: chooses the moment and writes its fragment.
///
/// Fails only where `ENSOULMENT_TIMESTAMP` is set to something that is no
/// RFC 3339 timestamp. A fragment that comes out embeds a literal, and that
/// literal is the RFC 3339 text of a moment.
pub fn generate(env: Option<&str>) -> (built: Result<String, EnsoulmentBuildError>)
    ensures
        may_build(env_text(env), built_text(built)),
        built matches Ok(fragment) ==> exists|moment: MomentView|
            moment.representable() && fragment@ == #[trigger] moment_fragment(moment)
                && fragment_literal(fragment@) == Some(rfc3339_text(moment)),
{
    match select_moment(env) {
        Ok(moment) => Ok(fragment_for(&moment)),
        Err(error) => Err(error),
    }
}

} // verus!
