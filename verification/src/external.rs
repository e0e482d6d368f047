//! The calls into outside crates, each behind a wrapper whose contract is
//! believed, not proved.

use vstd::prelude::*;

verus! {

/// What `heck::ToSnakeCase::to_snake_case` makes of a text.
pub uninterp spec fn snake_case(s: Seq<char>) -> Seq<char>;

/// What `capitalize::Capitalize::capitalize_first_only` makes of a text.
pub uninterp spec fn capitalized_first_only(s: Seq<char>) -> Seq<char>;

/// Calls `heck::ToSnakeCase::to_snake_case`. Claimed: the result is the
/// snake-case form of `s` and depends on `s` alone (the crate's word-splitting
/// algorithm is not restated).
#[verifier::external_body]
pub(crate) fn to_snake_case(s: &str) -> (res: String)
    ensures
        res@ == snake_case(s@),
{
    heck::ToSnakeCase::to_snake_case(s)
}

/// Calls `capitalize::Capitalize::capitalize_first_only`, which maps the first
/// character through `char::to_uppercase` and keeps the rest. Claimed: the
/// result depends on `s` alone; the empty text stays empty; when the first
/// character is ASCII, it is upper-cased as ASCII and the rest is kept.
/// What `to_uppercase` does to a non-ASCII first character is not stated.
#[verifier::external_body]
pub(crate) fn capitalize_first_only(s: &str) -> (res: String)
    ensures
        res@ == capitalized_first_only(s@),
        s@.len() == 0 ==> res@.len() == 0,
        s@.len() > 0 && 'a' <= s@[0] <= 'z' ==> res@ == seq![((s@[0] as u32) - 32) as char] + s@.drop_first(),
        s@.len() > 0 && (s@[0] as u32) < 128 && !('a' <= s@[0] <= 'z') ==> res@ == s@,
{
    capitalize::Capitalize::capitalize_first_only(&s)
}

/// Whether proc_macro2's own lexer accepts a text as a sequence of Rust
/// tokens.
pub uninterp spec fn lexes_as_tokens(s: Seq<char>) -> bool;

/// Calls `<proc_macro2::TokenStream as FromStr>::from_str` and tells whether
/// it succeeded. Claimed: success means that proc_macro2's own lexer
/// accepts the text. Outside a procedural macro that lexer is the one used;
/// inside one, the compiler's lexer is used only on texts that proc_macro2's
/// own lexer accepted first, and a panic of the compiler's lexer is caught
/// and returned as an error. A refusal is not claimed to mean that the text
/// does not lex: inside a procedural macro the compiler's lexer may refuse
/// what proc_macro2's own lexer accepts.
#[verifier::external_body]
pub(crate) fn is_token_stream(s: &str) -> (res: bool)
    ensures
        res ==> lexes_as_tokens(s@),
{
    <proc_macro2::TokenStream as core::str::FromStr>::from_str(s).is_ok()
}

} // verus!
