//! Trusted boundary to the syntax crates. Generation consults them for two
//! yes/no questions: whether a `return_type` value parses as a Rust type,
//! and whether a `getter_logic` value lexes as a token stream. Which strings
//! are accepted depends on the environment (inside a real macro expansion
//! the host compiler's lexer answers, elsewhere a fallback lexer does, and
//! the two can disagree), so nothing is promised of the answer: the callers
//! carry it as data and are verified for either outcome.

use vstd::prelude::*;

verus! {

/// Relies on `syn::parse_str::<syn::Type>` for the call only; no contract,
/// since which strings are accepted can vary with the environment.
#[verifier::external_body]
pub(crate) fn parses_as_type(s: &str) -> bool {
    syn::parse_str::<syn::Type>(s).is_ok()
}

/// Relies on `str::parse::<proc_macro2::TokenStream>` for the call only; no
/// contract, since which strings lex can vary with the environment.
#[verifier::external_body]
pub(crate) fn lexes_as_token_stream(s: &str) -> bool {
    s.parse::<proc_macro2::TokenStream>().is_ok()
}

} // verus!
