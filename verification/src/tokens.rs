//! Trusted boundary around the proc-macro2 token constructors.
//!
//! The library builds every generated fragment out of four token shapes:
//! identifiers, punctuation, string literals and delimited groups, each
//! placed at a caller-supplied source location.  Each constructor below is
//! a thin wrapper over the corresponding proc-macro2 function, and its
//! result is pinned to an abstract name so that the verified rendering
//! code can state exactly which tokens it emits and where.

use vstd::prelude::*;
use proc_macro2::{Span, TokenStream, TokenTree};

verus! {

#[verifier::external_type_specification]
#[verifier::external_body]
pub struct ExSpan(Span);

#[verifier::external_type_specification]
#[verifier::external_body]
pub struct ExTokenStream(TokenStream);

#[verifier::external_type_specification]
#[verifier::external_body]
pub struct ExTokenTree(TokenTree);

/// A character that may begin one of the identifiers this library generates.
pub open spec fn ident_start_char(c: char) -> bool {
    c == '_' || ('a' <= c && c <= 'z') || ('A' <= c && c <= 'Z')
}

/// A character that may continue one of the identifiers this library generates.
pub open spec fn ident_char(c: char) -> bool {
    ident_start_char(c) || ('0' <= c && c <= '9')
}

/// The identifiers this library generates: non-empty, ASCII, starting with
/// a letter or underscore.  Every such string is a legal identifier token,
/// so the identifier constructor cannot reject it.
pub open spec fn ident_ok(s: Seq<char>) -> bool {
    &&& s.len() > 0
    &&& ident_start_char(s[0])
    &&& forall|i: int| 0 <= i < s.len() ==> #[trigger] ident_char(s[i])
}

/// The punctuation characters this library emits; each is in the set the
/// punctuation constructor documents as legal.
pub open spec fn punct_char(c: char) -> bool {
    c == '#' || c == '=' || c == ';'
}

/// The opening character of a delimiter accepted by the group constructor.
pub open spec fn open_delim(c: char) -> bool {
    c == '[' || c == '(' || c == '{'
}

/// The identifier token with this name, placed at this location.
pub uninterp spec fn ident_at(name: Seq<char>, span: Span) -> TokenTree;

/// The punctuation token for this character, placed at this location.
pub uninterp spec fn punct_at(ch: char, span: Span) -> TokenTree;

/// The string-literal token whose value is this text, placed at this location.
pub uninterp spec fn str_literal_at(text: Seq<char>, span: Span) -> TokenTree;

/// The group token delimited as `open` says, wrapping `body`, placed at
/// this location.
pub uninterp spec fn group_at(open: char, body: TokenStream, span: Span) -> TokenTree;

/// The stream holding exactly these tokens, in order.
pub uninterp spec fn stream_of(tokens: Seq<TokenTree>) -> TokenStream;

/// The stream holding these streams concatenated, in order.
pub uninterp spec fn stream_concat_all(parts: Seq<TokenStream>) -> TokenStream;

/// Relies on proc_macro2::Ident::new: given a legal identifier it returns
/// that identifier as a token; the token depends on the name and the given
/// location alone.
#[verifier::external_body]
pub(crate) fn mk_ident(name: &str, span: Span) -> (t: TokenTree)
    requires
        ident_ok(name@),
    ensures
        t == ident_at(name@, span),
{
    TokenTree::Ident(proc_macro2::Ident::new(name, span))
}

/// Relies on proc_macro2::Punct::new and Punct::set_span: given a legal
/// punctuation character it returns that character as a stand-alone token
/// placed at `span`.
#[verifier::external_body]
pub(crate) fn mk_punct(ch: char, span: Span) -> (t: TokenTree)
    requires
        punct_char(ch),
    ensures
        t == punct_at(ch, span),
{
    let mut p = proc_macro2::Punct::new(ch, proc_macro2::Spacing::Alone);
    p.set_span(span);
    TokenTree::Punct(p)
}

/// Relies on proc_macro2::Literal::string and Literal::set_span: the text is
/// escaped into a valid string literal token placed at `span`; it accepts
/// every string.
#[verifier::external_body]
pub(crate) fn mk_str_literal(text: &str, span: Span) -> (t: TokenTree)
    ensures
        t == str_literal_at(text@, span),
{
    let mut lit = proc_macro2::Literal::string(text);
    lit.set_span(span);
    TokenTree::Literal(lit)
}

/// Relies on proc_macro2::Group::new and Group::set_span: wraps `body` in
/// the delimiter named by its opening character, placed at `span`; it
/// accepts every stream.
#[verifier::external_body]
pub(crate) fn mk_group(open: char, body: TokenStream, span: Span) -> (t: TokenTree)
    requires
        open_delim(open),
    ensures
        t == group_at(open, body, span),
{
    let delimiter = match open {
        '[' => proc_macro2::Delimiter::Bracket,
        '(' => proc_macro2::Delimiter::Parenthesis,
        _ => proc_macro2::Delimiter::Brace,
    };
    let mut g = proc_macro2::Group::new(delimiter, body);
    g.set_span(span);
    TokenTree::Group(g)
}

/// Relies on the FromIterator impl collecting token trees into a
/// TokenStream: the result holds exactly the given tokens, in order.
#[verifier::external_body]
pub(crate) fn stream_from_tokens(tokens: Vec<TokenTree>) -> (r: TokenStream)
    ensures
        r == stream_of(tokens@),
{
    tokens.into_iter().collect()
}

/// Relies on the FromIterator impl collecting TokenStreams into one
/// TokenStream: the result is their concatenation, in order.
#[verifier::external_body]
pub(crate) fn concat_streams(parts: Vec<TokenStream>) -> (r: TokenStream)
    ensures
        r == stream_concat_all(parts@),
{
    parts.into_iter().collect()
}

} // verus!
