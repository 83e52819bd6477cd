//! What can go wrong in a build.

use vstd::prelude::*;

verus! {

/// Why a build was refused.
#[derive(Debug)]
pub enum EnsoulmentBuildError {
    /// `ENSOULMENT_TIMESTAMP` was set, and its value is no RFC 3339
    /// timestamp. Holds what the parser said.
    EnvParseError(chrono::format::ParseError),
}

/// How every message about a rejected `ENSOULMENT_TIMESTAMP` begins.
pub const ENV_PARSE_PREAMBLE: &'static str =
    "An $ENSOULMENT_TIMESTAMP variable was given, but it was not a valid rfc3339 timestamp. Error: ";

/// How every message about a rejected `ENSOULMENT_TIMESTAMP` begins, as a
/// text.
pub open spec fn env_parse_preamble() -> Seq<char> {
    ENV_PARSE_PREAMBLE@
}

/// Whether `word` stands somewhere in `text`.
pub open spec fn mentions(text: Seq<char>, word: Seq<char>) -> bool {
    exists|at: int|
        0 <= at && at + word.len() <= text.len() && #[trigger] text.subrange(
            at,
            at + word.len(),
        ) == word
}

/// The message for a rejected `ENSOULMENT_TIMESTAMP`, given what the parser
/// said: the fixed preamble, which names the variable, then the parser's
/// words.
pub fn env_parse_message(diagnostic: &str) -> (message: String)
    ensures
        message@ == env_parse_preamble() + diagnostic@,
{
    String::from_str(ENV_PARSE_PREAMBLE).concat(diagnostic)
}

impl Clone for EnsoulmentBuildError {
    fn clone(&self) -> (copy: Self)
        ensures
            copy == *self,
    {
        match self {
            EnsoulmentBuildError::EnvParseError(error) => EnsoulmentBuildError::EnvParseError(
                *error,
            ),
        }
    }
}

impl EnsoulmentBuildError {
    /// Whether `message` is what this error reads as: the preamble, then
    /// the words that the parser's error displays as.
    pub open spec fn reads_as(&self, message: Seq<char>) -> bool {
        match self {
            EnsoulmentBuildError::EnvParseError(error) => exists|diagnostic: String|
                #[trigger] vstd::string::to_string_from_display_ensures::<
                    chrono::format::ParseError,
                >(error, diagnostic) && message == env_parse_preamble() + diagnostic@,
        }
    }

    /// The message shown to whoever started the build.
    pub fn message(&self) -> (message: String)
        ensures
            self.reads_as(message@),
    {
        match self {
            EnsoulmentBuildError::EnvParseError(error) => {
                let diagnostic = error.to_string();
                env_parse_message(diagnostic.as_str())
            },
        }
    }

    /// The parser's error that this one was made from.
    pub fn source(&self) -> (cause: Option<&chrono::format::ParseError>)
        ensures
            self matches EnsoulmentBuildError::EnvParseError(error) ==> cause == Some(error),
    {
        match self {
            EnsoulmentBuildError::EnvParseError(error) => Some(error),
        }
    }
}

/// Whatever the parser said, the message names the variable and the format
/// that was asked of it.
pub proof fn lemma_message_names_the_variable(error: EnsoulmentBuildError, message: Seq<char>)
    requires
        error.reads_as(message),
    ensures
        env_parse_preamble().is_prefix_of(message),
        mentions(message, "ENSOULMENT_TIMESTAMP"@),
        mentions(message, "rfc3339"@),
{
    reveal_strlit(
        "An $ENSOULMENT_TIMESTAMP variable was given, but it was not a valid rfc3339 timestamp. Error: ",
    );
    reveal_strlit("ENSOULMENT_TIMESTAMP");
    reveal_strlit("rfc3339");
    let variable = "ENSOULMENT_TIMESTAMP"@;
    let format = "rfc3339"@;
    let variable_at: int = 4;
    let format_at: int = 68;
    assert(message.subrange(variable_at, variable_at + variable.len()) =~= variable);
    assert(message.subrange(format_at, format_at + format.len()) =~= format);
}

impl From<chrono::format::ParseError> for EnsoulmentBuildError {
    fn from(error: chrono::format::ParseError) -> (wrapped: Self) {
        EnsoulmentBuildError::EnvParseError(error)
    }
}

impl vstd::std_specs::convert::FromSpecImpl<chrono::format::ParseError> for EnsoulmentBuildError {
    open spec fn obeys_from_spec() -> bool {
        true
    }

    open spec fn from_spec(error: chrono::format::ParseError) -> Self {
        EnsoulmentBuildError::EnvParseError(error)
    }
}

} // verus!
