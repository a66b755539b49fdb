//! Identifiers of the target language.
//!
//! Whether a text is an identifier is decided by the parser of `syn`, the same
//! parser that later reads the emitted source. The library asks it for the
//! identifier it finds in the text and accepts the text only when the parser
//! hands the very same text back.

use vstd::prelude::*;

verus! {

/// The identifier that `syn` reads out of `text` when the whole of `text` is
/// offered to it as one identifier: `Some` with the identifier's own spelling,
/// or `None` where the parser refuses the text.
pub uninterp spec fn parsed_ident(text: Seq<char>) -> Option<Seq<char>>;

/// A text is a valid identifier when the parser reads an identifier out of it
/// whose spelling is the text itself. Blanks and comments around an identifier
/// are skipped by the parser, so they change the spelling and are refused here.
pub open spec fn valid_identifier(text: Seq<char>) -> bool {
    parsed_ident(text) == Some(text)
}

/// Calls `syn::parse_str::<syn::Ident>` on `text` and renders the identifier it
/// returns with `to_string`.
///
/// Trusted: the result is the value that `parsed_ident` names for `text`. The
/// parser runs on the text alone and reports every refusal as an error value.
#[verifier::external_body]
fn parse_ident(text: &str) -> (parsed: Option<String>)
    ensures
        match parsed {
            Some(spelling) => parsed_ident(text@) == Some(spelling@),
            None => parsed_ident(text@) is None,
        },
{
    match syn::parse_str::<syn::Ident>(text) {
        Ok(ident) => Some(ident.to_string()),
        Err(_) => None,
    }
}

/// Decides, from what the parser made of `text`, whether `text` stands as an
/// identifier: the parser must have found one, spelled exactly as `text`.
pub fn is_canonical(text: &str, parsed: &Option<String>) -> (accepted: bool)
    ensures
        accepted == (parsed matches Some(spelling) && spelling@ == text@),
{
    match parsed {
        Some(spelling) => {
            let given = text.to_owned();
            *spelling == given
        },
        None => false,
    }
}

/// Whether `text` is a valid identifier of the target language.
pub fn is_identifier(text: &str) -> (accepted: bool)
    ensures
        accepted == valid_identifier(text@),
{
    let parsed = parse_ident(text);
    is_canonical(text, &parsed)
}

} // verus!
