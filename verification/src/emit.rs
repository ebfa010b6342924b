//! Registering warnings and rendering the collected output.
//!
//! `warn` builds the shim fragment for one warning — a zero-sized symbol
//! marked deprecated carrying the message, plus a second symbol referencing
//! it — and registers it in the session's sink.  Defining a deprecated
//! symbol alone triggers no diagnostic, so the collectors additionally
//! generate a *use* of each fragment: `collect_warning_statements` wraps
//! each one in a discard statement for splicing into a function body, and
//! `collect_warning_items` wraps each one in a uniquely named module for
//! splicing at item scope.  Every generated token is placed at the location
//! the corresponding `warn` call named, so the host compiler's diagnostic
//! points at the user's code.

use vstd::prelude::*;
use proc_macro2::{Span, TokenStream, TokenTree};
use crate::names::{lemma_module_name_ident_ok, lemma_module_names_distinct, module_name,
    render_module_name};
use crate::sink::{WarningEntry, WarningSink};
use crate::tokens::{concat_streams, group_at, ident_at, ident_ok, mk_group, mk_ident, mk_punct,
    mk_str_literal, punct_at, str_literal_at, stream_concat_all, stream_from_tokens, stream_of};

verus! {

/// The shim fragment built for one warning: the token stream
/// `#[deprecated = "<message>"] struct Warning; struct Warner(Warning);`,
/// every token placed at `span`.
pub open spec fn shim_fragment(span: Span, message: Seq<char>) -> TokenStream {
    stream_of(
        seq![
            punct_at('#', span),
            group_at(
                '[',
                stream_of(
                    seq![
                        ident_at("deprecated"@, span),
                        punct_at('=', span),
                        str_literal_at(message, span),
                    ],
                ),
                span,
            ),
            ident_at("struct"@, span),
            ident_at("Warning"@, span),
            punct_at(';', span),
            ident_at("struct"@, span),
            ident_at("Warner"@, span),
            group_at('(', stream_of(seq![ident_at("Warning"@, span)]), span),
            punct_at(';', span),
        ],
    )
}

/// The entry a single `warn` call with these arguments registers.
pub open spec fn entry_of(span: Span, message: Seq<char>) -> WarningEntry {
    WarningEntry { span, fragment: shim_fragment(span, message) }
}

/// One rendered discard statement: `let _ = { <body> };`, every token of the
/// wrapping placed at `span`.
pub open spec fn statement_fragment(span: Span, body: TokenStream) -> TokenStream {
    stream_of(
        seq![
            ident_at("let"@, span),
            ident_at("_"@, span),
            punct_at('=', span),
            group_at('{', body, span),
            punct_at(';', span),
        ],
    )
}

/// One rendered warning module: `mod <name> { <body> }`, every token of the
/// wrapping placed at `span`.
pub open spec fn item_fragment(name: Seq<char>, span: Span, body: TokenStream) -> TokenStream {
    stream_of(
        seq![ident_at("mod"@, span), ident_at(name, span), group_at('{', body, span)],
    )
}

/// Everything one statements collection renders for these entries: one
/// discard statement per entry, in order, each at its entry's location.
pub open spec fn statements_rendering(entries: Seq<WarningEntry>) -> TokenStream {
    stream_concat_all(
        Seq::new(entries.len(), |i: int| statement_fragment(entries[i].span, entries[i].fragment)),
    )
}

/// Everything one items collection renders for these entries: one module
/// per entry, in order, the one at position `i` named `module_name(i)`.
pub open spec fn items_rendering(entries: Seq<WarningEntry>) -> TokenStream {
    stream_concat_all(
        Seq::new(
            entries.len(),
            |i: int| item_fragment(module_name(i as nat), entries[i].span, entries[i].fragment),
        ),
    )
}

/// The fixed identifiers spliced into generated fragments are all legal.
proof fn lemma_generated_idents_ok()
    ensures
        ident_ok("deprecated"@),
        ident_ok("struct"@),
        ident_ok("Warning"@),
        ident_ok("Warner"@),
        ident_ok("let"@),
        ident_ok("_"@),
        ident_ok("mod"@),
{
    reveal_strlit("deprecated");
    reveal_strlit("struct");
    reveal_strlit("Warning");
    reveal_strlit("Warner");
    reveal_strlit("let");
    reveal_strlit("_");
    reveal_strlit("mod");
}

/// Builds the shim fragment for one warning.
fn make_shim_fragment(span: Span, message: &str) -> (r: TokenStream)
    ensures
        r == shim_fragment(span, message@),
{
    proof {
        lemma_generated_idents_ok();
    }
    let mut attr: Vec<TokenTree> = Vec::new();
    attr.push(mk_ident("deprecated", span));
    attr.push(mk_punct('=', span));
    attr.push(mk_str_literal(message, span));
    proof {
        assert(attr@ =~= seq![
            ident_at("deprecated"@, span),
            punct_at('=', span),
            str_literal_at(message@, span),
        ]);
    }
    let attr_stream = stream_from_tokens(attr);

    let mut reference: Vec<TokenTree> = Vec::new();
    reference.push(mk_ident("Warning", span));
    proof {
        assert(reference@ =~= seq![ident_at("Warning"@, span)]);
    }
    let reference_stream = stream_from_tokens(reference);

    let mut tokens: Vec<TokenTree> = Vec::new();
    tokens.push(mk_punct('#', span));
    tokens.push(mk_group('[', attr_stream, span));
    tokens.push(mk_ident("struct", span));
    tokens.push(mk_ident("Warning", span));
    tokens.push(mk_punct(';', span));
    tokens.push(mk_ident("struct", span));
    tokens.push(mk_ident("Warner", span));
    tokens.push(mk_group('(', reference_stream, span));
    tokens.push(mk_punct(';', span));
    proof {
        assert(tokens@ =~= seq![
            punct_at('#', span),
            group_at(
                '[',
                stream_of(
                    seq![
                        ident_at("deprecated"@, span),
                        punct_at('=', span),
                        str_literal_at(message@, span),
                    ],
                ),
                span,
            ),
            ident_at("struct"@, span),
            ident_at("Warning"@, span),
            punct_at(';', span),
            ident_at("struct"@, span),
            ident_at("Warner"@, span),
            group_at('(', stream_of(seq![ident_at("Warning"@, span)]), span),
            punct_at(';', span),
        ]);
    }
    stream_from_tokens(tokens)
}

/// Registers one warning: builds the shim fragment carrying `message`, tags
/// every token with `span`, and appends it to the sink after every earlier
/// entry.  The message is embedded as an escaped string literal, so any
/// text is safe to pass.
pub fn warn(sink: &mut WarningSink, span: Span, message: &str)
    ensures
        final(sink)@ == old(sink)@.push(entry_of(span, message@)),
{
    let fragment = make_shim_fragment(span, message);
    sink.register(WarningEntry { span, fragment });
}

/// Renders one drained entry as a discard statement.
fn render_statement(span: Span, body: TokenStream) -> (r: TokenStream)
    ensures
        r == statement_fragment(span, body),
{
    proof {
        lemma_generated_idents_ok();
    }
    let mut tokens: Vec<TokenTree> = Vec::new();
    tokens.push(mk_ident("let", span));
    tokens.push(mk_ident("_", span));
    tokens.push(mk_punct('=', span));
    tokens.push(mk_group('{', body, span));
    tokens.push(mk_punct(';', span));
    proof {
        assert(tokens@ =~= seq![
            ident_at("let"@, span),
            ident_at("_"@, span),
            punct_at('=', span),
            group_at('{', body, span),
            punct_at(';', span),
        ]);
    }
    stream_from_tokens(tokens)
}

/// Renders one drained entry as a named module.
fn render_item(name: &str, span: Span, body: TokenStream) -> (r: TokenStream)
    requires
        ident_ok(name@),
    ensures
        r == item_fragment(name@, span, body),
{
    proof {
        lemma_generated_idents_ok();
    }
    let mut tokens: Vec<TokenTree> = Vec::new();
    tokens.push(mk_ident("mod", span));
    tokens.push(mk_ident(name, span));
    tokens.push(mk_group('{', body, span));
    proof {
        assert(tokens@ =~= seq![
            ident_at("mod"@, span),
            ident_at(name@, span),
            group_at('{', body, span),
        ]);
    }
    stream_from_tokens(tokens)
}

/// Drains the sink and renders every entry, in registration order, as a
/// discard statement `let _ = { <fragment> };` placed at the entry's
/// location; the statements are concatenated into one fragment.  The sink
/// is left empty, so a second collection with no intervening `warn` renders
/// the empty concatenation.
pub fn collect_warning_statements(sink: &mut WarningSink) -> (r: TokenStream)
    ensures
        final(sink)@ == Seq::<WarningEntry>::empty(),
        r == statements_rendering(old(sink)@),
{
    let mut entries = sink.drain();
    let ghost orig = entries@;
    let mut parts: Vec<TokenStream> = Vec::new();
    while entries.len() > 0
        invariant
            parts@.len() + entries@.len() == orig.len(),
            entries@ =~= orig.subrange(parts@.len() as int, orig.len() as int),
            forall|i: int|
                0 <= i < parts@.len() ==> #[trigger] parts@[i] == statement_fragment(
                    orig[i].span,
                    orig[i].fragment,
                ),
        decreases entries@.len(),
    {
        let ghost k = parts@.len() as int;
        let e = entries.remove(0);
        proof {
            assert(e == orig[k]);
        }
        let part = render_statement(e.span, e.fragment);
        parts.push(part);
        proof {
            assert(entries@ =~= orig.subrange(parts@.len() as int, orig.len() as int));
        }
    }
    proof {
        assert(parts@ =~= Seq::new(
            orig.len(),
            |i: int| statement_fragment(orig[i].span, orig[i].fragment),
        ));
    }
    concat_streams(parts)
}

/// Drains the sink and renders every entry, in registration order, as a
/// module `mod W<position> { <fragment> }` placed at the entry's location;
/// the modules are concatenated into one fragment.  Positions count from
/// zero within this call, so the names `W0`, `W1`, ... are pairwise
/// distinct.  The sink is left empty, so a second collection with no
/// intervening `warn` renders the empty concatenation.
pub fn collect_warning_items(sink: &mut WarningSink) -> (r: TokenStream)
    ensures
        final(sink)@ == Seq::<WarningEntry>::empty(),
        r == items_rendering(old(sink)@),
{
    let mut entries = sink.drain();
    let ghost orig = entries@;
    let mut parts: Vec<TokenStream> = Vec::new();
    while entries.len() > 0
        invariant
            parts@.len() + entries@.len() == orig.len(),
            entries@ =~= orig.subrange(parts@.len() as int, orig.len() as int),
            forall|i: int|
                0 <= i < parts@.len() ==> #[trigger] parts@[i] == item_fragment(
                    module_name(i as nat),
                    orig[i].span,
                    orig[i].fragment,
                ),
        decreases entries@.len(),
    {
        let ghost k = parts@.len() as int;
        let position = parts.len();
        let e = entries.remove(0);
        proof {
            assert(e == orig[k]);
            lemma_module_name_ident_ok(position as nat);
        }
        let name = render_module_name(position as u64);
        let part = render_item(name.as_str(), e.span, e.fragment);
        parts.push(part);
        proof {
            assert(entries@ =~= orig.subrange(parts@.len() as int, orig.len() as int));
        }
    }
    proof {
        assert(parts@ =~= Seq::new(
            orig.len(),
            |i: int| item_fragment(module_name(i as nat), orig[i].span, orig[i].fragment),
        ));
    }
    concat_streams(parts)
}

/// The sink contents after the warnings `ws` — location and message pairs —
/// are registered in order into a fresh sink: exactly what a sequence of
/// `warn` calls leaves behind.
pub open spec fn session_entries(ws: Seq<(Span, Seq<char>)>) -> Seq<WarningEntry>
    decreases ws.len(),
{
    if ws.len() == 0 {
        Seq::<WarningEntry>::empty()
    } else {
        session_entries(ws.drop_last()).push(entry_of(ws.last().0, ws.last().1))
    }
}

/// A session of `warn` calls buffers one entry per call, in call order,
/// each carrying its own call's location and that location's shim fragment.
pub proof fn lemma_session_entries(ws: Seq<(Span, Seq<char>)>)
    ensures
        session_entries(ws).len() == ws.len(),
        forall|i: int|
            0 <= i < ws.len() ==> #[trigger] session_entries(ws)[i] == entry_of(
                ws[i].0,
                ws[i].1,
            ),
    decreases ws.len(),
{
    if ws.len() > 0 {
        lemma_session_entries(ws.drop_last());
        assert forall|i: int| 0 <= i < ws.len() implies #[trigger] session_entries(ws)[i]
            == entry_of(ws[i].0, ws[i].1) by {
            if i < ws.len() - 1 {
                assert(ws.drop_last()[i] == ws[i]);
                assert(session_entries(ws)[i] == session_entries(ws.drop_last())[i]);
            }
        }
    }
}

/// Law: after the warnings `ws` are registered in order on one session, a
/// statements collection renders exactly `ws.len()` discard statements, in
/// registration order; the statement at position `i` is placed at the
/// location of warning `i` and wraps the shim fragment built from that
/// warning's location and message.
pub proof fn lemma_one_statement_per_warning(ws: Seq<(Span, Seq<char>)>)
    ensures
        statements_rendering(session_entries(ws)) == stream_concat_all(
            Seq::new(
                ws.len(),
                |i: int| statement_fragment(ws[i].0, shim_fragment(ws[i].0, ws[i].1)),
            ),
        ),
{
    lemma_session_entries(ws);
    assert(Seq::new(
        session_entries(ws).len(),
        |i: int| statement_fragment(session_entries(ws)[i].span, session_entries(ws)[i].fragment),
    ) =~= Seq::new(
        ws.len(),
        |i: int| statement_fragment(ws[i].0, shim_fragment(ws[i].0, ws[i].1)),
    ));
}

/// Law: after the warnings `ws` are registered in order on one session, an
/// items collection renders exactly `ws.len()` modules, in registration
/// order; the module at position `i` is named `module_name(i)` — the names
/// are pairwise distinct — is placed at the location of warning `i`, and
/// wraps the shim fragment built from that warning's location and message.
pub proof fn lemma_one_module_per_warning(ws: Seq<(Span, Seq<char>)>)
    ensures
        items_rendering(session_entries(ws)) == stream_concat_all(
            Seq::new(
                ws.len(),
                |i: int| item_fragment(
                    module_name(i as nat),
                    ws[i].0,
                    shim_fragment(ws[i].0, ws[i].1),
                ),
            ),
        ),
        forall|i: nat, j: nat| i != j ==> #[trigger] module_name(i) != #[trigger] module_name(j),
{
    lemma_session_entries(ws);
    assert(Seq::new(
        session_entries(ws).len(),
        |i: int| item_fragment(
            module_name(i as nat),
            session_entries(ws)[i].span,
            session_entries(ws)[i].fragment,
        ),
    ) =~= Seq::new(
        ws.len(),
        |i: int| item_fragment(module_name(i as nat), ws[i].0, shim_fragment(ws[i].0, ws[i].1)),
    ));
    assert forall|i: nat, j: nat| i != j implies #[trigger] module_name(i) != #[trigger] module_name(j) by {
        lemma_module_names_distinct(i, j);
    }
}

/// Law: a collection drains the sink, so a second collection with no
/// intervening registration — like any collection of a session that
/// registered nothing — renders the concatenation of no fragments.
pub proof fn lemma_collection_after_drain_empty()
    ensures
        statements_rendering(Seq::<WarningEntry>::empty()) == stream_concat_all(
            Seq::<TokenStream>::empty(),
        ),
        items_rendering(Seq::<WarningEntry>::empty()) == stream_concat_all(
            Seq::<TokenStream>::empty(),
        ),
{
    assert(Seq::new(
        Seq::<WarningEntry>::empty().len(),
        |i: int| statement_fragment(
            Seq::<WarningEntry>::empty()[i].span,
            Seq::<WarningEntry>::empty()[i].fragment,
        ),
    ) =~= Seq::<TokenStream>::empty());
    assert(Seq::new(
        Seq::<WarningEntry>::empty().len(),
        |i: int| item_fragment(
            module_name(i as nat),
            Seq::<WarningEntry>::empty()[i].span,
            Seq::<WarningEntry>::empty()[i].fragment,
        ),
    ) =~= Seq::<TokenStream>::empty());
}

} // verus!
