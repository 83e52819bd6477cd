//! The fragment that carries a build's timestamp into the program.
//!
//! A fragment is one line of source text: an expression that parses a
//! string literal as an RFC 3339 timestamp. A program may take it in as
//! code, or as text and read the literal out of it with [`read_fragment`].

use vstd::prelude::*;

verus! {

/// What stands before the literal in every fragment.
pub const FRAGMENT_PREFIX: &'static str = "::chrono::DateTime::parse_from_rfc3339(\"";

/// What stands after the literal in every fragment.
pub const FRAGMENT_SUFFIX: &'static str = "\").unwrap()";

/// The fragment that embeds `literal`.
pub open spec fn fragment_text(literal: Seq<char>) -> Seq<char> {
    FRAGMENT_PREFIX@ + literal + FRAGMENT_SUFFIX@
}

/// Whether `c` stands for itself between the quotes of a string literal:
/// it neither ends the literal nor starts an escape, and is no bare carriage
/// return.
pub open spec fn is_literal_char(c: char) -> bool {
    c != '"' && c != '\\' && c != '\r'
}

/// Whether `text`, written between quotes, is a string literal of that very
/// value.
pub open spec fn is_plain_literal(text: Seq<char>) -> bool {
    forall|i: int| 0 <= i < text.len() ==> is_literal_char(#[trigger] text[i])
}

/// The literal that `fragment` embeds, or `None` where `fragment` is not a
/// fragment: it must open with the prefix, close with the suffix, and hold
/// a plain literal between the two.
pub open spec fn fragment_literal(fragment: Seq<char>) -> Option<Seq<char>> {
    let opening = FRAGMENT_PREFIX@.len() as int;
    let closing = fragment.len() - FRAGMENT_SUFFIX@.len();
    if opening <= closing && fragment.subrange(0, opening) == FRAGMENT_PREFIX@
        && fragment.subrange(closing, fragment.len() as int) == FRAGMENT_SUFFIX@
        && is_plain_literal(fragment.subrange(opening, closing)) {
        Some(fragment.subrange(opening, closing))
    } else {
        None
    }
}

/// Wraps `literal` in the fragment's fixed text.
pub fn render_fragment(literal: &str) -> (fragment: String)
    ensures
        fragment@ == fragment_text(literal@),
{
    String::from_str(FRAGMENT_PREFIX).concat(literal).concat(FRAGMENT_SUFFIX)
}

/// Whether two texts are the same, character for character.
fn same_text(left: &str, right: &str) -> (same: bool)
    ensures
        same == (left@ == right@),
{
    String::from_str(left) == String::from_str(right)
}

/// Whether `text` can stand between quotes as it is.
fn check_plain_literal(text: &str) -> (plain: bool)
    ensures
        plain == is_plain_literal(text@),
{
    for c in walk: text.chars()
        invariant
            walk.seq() == text@,
            forall|i: int| 0 <= i < walk.index() ==> is_literal_char(#[trigger] text@[i]),
    {
        if c == '"' || c == '\\' || c == '\r' {
            return false;
        }
    }
    true
}

/// Reads the literal out of a fragment.
pub fn read_fragment(fragment: &str) -> (literal: Option<String>)
    ensures
        match literal {
            Some(text) => fragment_literal(fragment@) == Some(text@),
            None => fragment_literal(fragment@) is None,
        },
{
    let total = fragment.unicode_len();
    let opening = FRAGMENT_PREFIX.unicode_len();
    let trailing = FRAGMENT_SUFFIX.unicode_len();
    if total < opening || total - opening < trailing {
        return None;
    }
    let closing = total - trailing;
    if !same_text(fragment.substring_char(0, opening), FRAGMENT_PREFIX) {
        return None;
    }
    if !same_text(fragment.substring_char(closing, total), FRAGMENT_SUFFIX) {
        return None;
    }
    let middle = fragment.substring_char(opening, closing);
    if !check_plain_literal(middle) {
        return None;
    }
    Some(String::from_str(middle))
}

/// A plain literal survives embedding: reading the fragment made for it
/// gives the literal back.
pub proof fn lemma_fragment_reads_back(literal: Seq<char>)
    requires
        is_plain_literal(literal),
    ensures
        fragment_literal(fragment_text(literal)) == Some(literal),
{
    let fragment = fragment_text(literal);
    let opening = FRAGMENT_PREFIX@.len() as int;
    let closing = fragment.len() - FRAGMENT_SUFFIX@.len();
    assert(fragment.subrange(0, opening) =~= FRAGMENT_PREFIX@);
    assert(fragment.subrange(closing, fragment.len() as int) =~= FRAGMENT_SUFFIX@);
}

/// Nothing but the fragment made for a literal reads as that literal.
pub proof fn lemma_fragment_is_unique(fragment: Seq<char>, literal: Seq<char>)
    requires
        fragment_literal(fragment) == Some(literal),
    ensures
        fragment == fragment_text(literal),
        is_plain_literal(literal),
{
    let opening = FRAGMENT_PREFIX@.len() as int;
    let closing = fragment.len() - FRAGMENT_SUFFIX@.len();
    assert(fragment =~= fragment.subrange(0, opening) + fragment.subrange(opening, closing)
        + fragment.subrange(closing, fragment.len() as int));
}

} // verus!
