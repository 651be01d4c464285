//! What holds of every parse unit, proved from the grammar of the global
//! scope.

use vstd::prelude::*;

use crate::ast::attrs::{AstAttrs, ExternalLinkage};
use crate::frontend::global::{
    declared_kind, expected_external_specifier, expected_global_item, invalid_external_specifier,
    linkage_named, parse_unit, plain_modifier, starts_global_item, step, unexpected_eof,
    unexpected_token, GlobalItemView, Outcome, Step,
};
use crate::frontend::lexer::is_terminated;
use crate::frontend::lexer::token::{TokenKind, TokenView};

verus! {

/// A unit that begins at its terminator ends there at once: it succeeds,
/// takes no token, records nothing and reports nothing. So it is with a
/// token sequence that holds the terminator and nothing else.
pub proof fn lemma_terminator_ends_unit(
    tokens: Seq<TokenView>,
    pos: int,
    terminator: TokenKind,
    pending: Set<AstAttrs>,
)
    requires
        0 <= pos < tokens.len(),
        tokens[pos].ty == terminator,
    ensures
        parse_unit(tokens, pos, terminator, pending) == (Outcome {
            pos,
            items: seq![],
            failure: None,
        }),
        parse_unit(tokens, pos, terminator, pending).diagnostics().len() == 0,
{
}

/// A unit that begins at the end of the input, with any other terminator,
/// fails there with one diagnostic, which says that the input ended.
pub proof fn lemma_eof_fails_unit(
    tokens: Seq<TokenView>,
    pos: int,
    terminator: TokenKind,
    pending: Set<AstAttrs>,
)
    requires
        0 <= pos < tokens.len(),
        tokens[pos].ty == TokenKind::EOF,
        terminator != TokenKind::EOF,
    ensures
        parse_unit(tokens, pos, terminator, pending) == (Outcome {
            pos,
            items: seq![],
            failure: Some(unexpected_eof(tokens[pos].location)),
        }),
        parse_unit(tokens, pos, terminator, pending).diagnostics() == seq![
            unexpected_eof(tokens[pos].location),
        ],
{
}

/// A unit over a terminated token sequence ends on a token of the
/// sequence, at or after the one it began at. It fails or ends at a token
/// of the terminator's kind, it has at most one diagnostic, and it has one
/// exactly when it fails.
pub proof fn lemma_unit_ends_in_bounds(
    tokens: Seq<TokenView>,
    pos: int,
    terminator: TokenKind,
    pending: Set<AstAttrs>,
)
    requires
        is_terminated(tokens),
        0 <= pos < tokens.len(),
    ensures
        pos <= parse_unit(tokens, pos, terminator, pending).pos < tokens.len(),
        parse_unit(tokens, pos, terminator, pending).failure is None ==> tokens[parse_unit(
            tokens,
            pos,
            terminator,
            pending,
        ).pos].ty == terminator,
        parse_unit(tokens, pos, terminator, pending).diagnostics().len() == (if parse_unit(
            tokens,
            pos,
            terminator,
            pending,
        ).failure is Some {
            1nat
        } else {
            0nat
        }),
    decreases tokens.len() - pos,
{
    if tokens[pos].ty != terminator {
        if let Step::Advance { pos: next, pending: gathered, item } = step(tokens, pos, pending) {
            lemma_unit_ends_in_bounds(tokens, next, terminator, gathered);
        }
    }
}

/// A modifier that stands for an attribute by itself, then the keyword of
/// a declaration, then the terminator: the unit succeeds. Where the
/// terminator is of neither of the two kinds before it, the unit ends at
/// the terminator and has recorded that one declaration, with the modifier
/// among its attributes.
pub proof fn lemma_modified_item_succeeds(
    tokens: Seq<TokenView>,
    pos: int,
    terminator: TokenKind,
    pending: Set<AstAttrs>,
)
    requires
        0 <= pos,
        pos + 2 < tokens.len(),
        plain_modifier(tokens[pos].ty) is Some,
        declared_kind(tokens[pos + 1].ty) is Some,
        tokens[pos + 2].ty == terminator,
    ensures
        parse_unit(tokens, pos, terminator, pending).failure is None,
        terminator != tokens[pos].ty && terminator != tokens[pos + 1].ty ==> parse_unit(
            tokens,
            pos,
            terminator,
            pending,
        ) == (Outcome {
            pos: pos + 2,
            items: seq![
                GlobalItemView {
                    kind: declared_kind(tokens[pos + 1].ty)->0,
                    attrs: pending.insert(plain_modifier(tokens[pos].ty)->0),
                    location: tokens[pos + 1].location,
                },
            ],
            failure: None,
        }),
{
    reveal_with_fuel(parse_unit, 3);
    let unit = parse_unit(tokens, pos, terminator, pending);
    if terminator != tokens[pos].ty && terminator != tokens[pos + 1].ty {
        assert(unit.items =~= seq![
            GlobalItemView {
                kind: declared_kind(tokens[pos + 1].ty)->0,
                attrs: pending.insert(plain_modifier(tokens[pos].ty)->0),
                location: tokens[pos + 1].location,
            },
        ]);
    }
}

/// A modifier that stands for an attribute by itself, with the terminator
/// right after it: where the terminator is of another kind and begins no
/// global item, the unit fails at the terminator, and its one diagnostic
/// says that a global item was expected after the modifier, which it
/// names.
pub proof fn lemma_lone_modifier_fails(
    tokens: Seq<TokenView>,
    pos: int,
    terminator: TokenKind,
    pending: Set<AstAttrs>,
)
    requires
        0 <= pos,
        pos + 1 < tokens.len(),
        plain_modifier(tokens[pos].ty) is Some,
        tokens[pos + 1].ty == terminator,
        !starts_global_item(terminator),
    ensures
        parse_unit(tokens, pos, terminator, pending) == (Outcome {
            pos: pos + 1,
            items: seq![],
            failure: Some(
                expected_global_item(tokens[pos].ty.text(), tokens[pos + 1].location),
            ),
        }),
{
}

/// A token that is neither the terminator nor the end of the input and
/// begins no global item fails the unit where it stands: the one
/// diagnostic says that the token was not expected, and carries its text.
pub proof fn lemma_stray_token_fails(
    tokens: Seq<TokenView>,
    pos: int,
    terminator: TokenKind,
    pending: Set<AstAttrs>,
)
    requires
        0 <= pos < tokens.len(),
        tokens[pos].ty != terminator,
        tokens[pos].ty != TokenKind::EOF,
        !starts_global_item(tokens[pos].ty),
    ensures
        parse_unit(tokens, pos, terminator, pending) == (Outcome {
            pos,
            items: seq![],
            failure: Some(unexpected_token(tokens[pos].ty.text(), tokens[pos].location)),
        }),
{
}

/// `external`, a string literal that names a linkage, the keyword of a
/// declaration, then the terminator, which is neither `external` nor that
/// keyword: the unit succeeds, and the declaration that it records has the
/// named linkage among its attributes.
pub proof fn lemma_external_item_succeeds(
    tokens: Seq<TokenView>,
    pos: int,
    terminator: TokenKind,
    pending: Set<AstAttrs>,
    name: Seq<char>,
    linkage: ExternalLinkage,
)
    requires
        0 <= pos,
        pos + 3 < tokens.len(),
        tokens[pos].ty == TokenKind::External,
        tokens[pos + 1].ty == TokenKind::String(name),
        linkage_named(name) == Some(linkage),
        declared_kind(tokens[pos + 2].ty) is Some,
        tokens[pos + 3].ty == terminator,
        terminator != TokenKind::External,
        terminator != tokens[pos + 2].ty,
    ensures
        parse_unit(tokens, pos, terminator, pending) == (Outcome {
            pos: pos + 3,
            items: seq![
                GlobalItemView {
                    kind: declared_kind(tokens[pos + 2].ty)->0,
                    attrs: pending.insert(AstAttrs::External(linkage)),
                    location: tokens[pos + 2].location,
                },
            ],
            failure: None,
        }),
{
    reveal_with_fuel(parse_unit, 3);
    assert(parse_unit(tokens, pos, terminator, pending).items =~= seq![
        GlobalItemView {
            kind: declared_kind(tokens[pos + 2].ty)->0,
            attrs: pending.insert(AstAttrs::External(linkage)),
            location: tokens[pos + 2].location,
        },
    ]);
}

/// `external` with a string literal after it that names no linkage fails
/// the unit at the literal: the one diagnostic says that the specifier is
/// not valid, and carries its text.
pub proof fn lemma_unknown_linkage_fails(
    tokens: Seq<TokenView>,
    pos: int,
    terminator: TokenKind,
    pending: Set<AstAttrs>,
    name: Seq<char>,
)
    requires
        0 <= pos,
        pos + 1 < tokens.len(),
        tokens[pos].ty == TokenKind::External,
        tokens[pos + 1].ty == TokenKind::String(name),
        linkage_named(name) is None,
        terminator != TokenKind::External,
    ensures
        parse_unit(tokens, pos, terminator, pending) == (Outcome {
            pos: pos + 1,
            items: seq![],
            failure: Some(invalid_external_specifier(name, tokens[pos + 1].location)),
        }),
{
}

/// `external` with anything but a string literal after it fails the unit
/// at that token: the one diagnostic says that an external specifier was
/// expected after `external`.
pub proof fn lemma_missing_linkage_fails(
    tokens: Seq<TokenView>,
    pos: int,
    terminator: TokenKind,
    pending: Set<AstAttrs>,
)
    requires
        0 <= pos,
        pos + 1 < tokens.len(),
        tokens[pos].ty == TokenKind::External,
        !(tokens[pos + 1].ty is String),
        terminator != TokenKind::External,
    ensures
        parse_unit(tokens, pos, terminator, pending) == (Outcome {
            pos: pos + 1,
            items: seq![],
            failure: Some(expected_external_specifier(tokens[pos + 1].location)),
        }),
{
}

/// The tokens from `from` up to `to`, `to` left out, are modifiers that
/// stand for an attribute by themselves.
pub open spec fn plain_run(tokens: Seq<TokenView>, from: int, to: int) -> bool {
    forall|i: int| from <= i < to ==> plain_modifier(#[trigger] tokens[i].ty) is Some
}

/// The attributes that the modifiers of such a run stand for.
pub open spec fn run_attrs(tokens: Seq<TokenView>, from: int, to: int) -> Set<AstAttrs> {
    Set::new(
        |attr: AstAttrs|
            exists|i: int| from <= i < to && plain_modifier(#[trigger] tokens[i].ty) == Some(attr),
    )
}

/// No token from `from` up to `to`, `to` left out, is of this kind.
pub open spec fn kind_absent(tokens: Seq<TokenView>, from: int, to: int, kind: TokenKind) -> bool {
    forall|i: int| from <= i < to ==> #[trigger] tokens[i].ty != kind
}

/// A run of modifiers before a token that begins a global item is taken
/// whole: the unit goes on at that token with the attributes of the run
/// gathered, whatever the order of the modifiers. The terminator is not
/// among them.
pub proof fn lemma_run_gathers(
    tokens: Seq<TokenView>,
    from: int,
    to: int,
    terminator: TokenKind,
    pending: Set<AstAttrs>,
)
    requires
        0 <= from <= to < tokens.len(),
        plain_run(tokens, from, to),
        starts_global_item(tokens[to].ty),
        kind_absent(tokens, from, to, terminator),
    ensures
        parse_unit(tokens, from, terminator, pending) == parse_unit(
            tokens,
            to,
            terminator,
            pending + run_attrs(tokens, from, to),
        ),
    decreases to - from,
{
    if from == to {
        assert(pending + run_attrs(tokens, from, to) =~= pending);
    } else {
        let attr = plain_modifier(tokens[from].ty)->0;
        assert(plain_modifier(tokens[from].ty) is Some);
        assert(tokens[from].ty != terminator);
        assert(starts_global_item(tokens[from + 1].ty)) by {
            if from + 1 < to {
                assert(plain_modifier(tokens[from + 1].ty) is Some);
            }
        }
        let rest = parse_unit(tokens, from + 1, terminator, pending.insert(attr));
        assert(parse_unit(tokens, from, terminator, pending).items =~= rest.items);
        lemma_run_gathers(tokens, from + 1, to, terminator, pending.insert(attr));
        assert(pending.insert(attr) + run_attrs(tokens, from + 1, to) =~= pending + run_attrs(
            tokens,
            from,
            to,
        )) by {
            assert forall|a: AstAttrs|
                run_attrs(tokens, from, to).contains(a) <==> (a == attr || run_attrs(
                    tokens,
                    from + 1,
                    to,
                ).contains(a)) by {
                if run_attrs(tokens, from, to).contains(a) {
                    let i = choose|i: int|
                        from <= i < to && plain_modifier(#[trigger] tokens[i].ty) == Some(a);
                    if i != from {
                        assert(from + 1 <= i < to && plain_modifier(tokens[i].ty) == Some(a));
                    }
                }
                if a == attr {
                    assert(from <= from < to && plain_modifier(tokens[from].ty) == Some(a));
                }
                if run_attrs(tokens, from + 1, to).contains(a) {
                    let i = choose|i: int|
                        from + 1 <= i < to && plain_modifier(#[trigger] tokens[i].ty) == Some(a);
                    assert(from <= i < to && plain_modifier(tokens[i].ty) == Some(a));
                }
            }
        }
    }
}

/// What a unit does from `pos` on depends on the tokens from `pos` on
/// alone: two terminated sequences of one length that agree from there on
/// end alike.
pub proof fn lemma_unit_reads_ahead(
    a: Seq<TokenView>,
    b: Seq<TokenView>,
    pos: int,
    terminator: TokenKind,
    pending: Set<AstAttrs>,
)
    requires
        is_terminated(a),
        a.len() == b.len(),
        0 <= pos,
        forall|i: int| pos <= i < a.len() ==> a[i] == b[i],
    ensures
        parse_unit(a, pos, terminator, pending) == parse_unit(b, pos, terminator, pending),
    decreases a.len() - pos,
{
    if pos < a.len() && a[pos].ty != terminator {
        assert(a[pos] == b[pos]);
        if a[pos].ty != TokenKind::EOF {
            assert(pos + 1 < a.len());
            assert(a[pos + 1] == b[pos + 1]);
            if a[pos + 1].ty != TokenKind::EOF {
                assert(pos + 2 < a.len());
                assert(a[pos + 2] == b[pos + 2]);
            }
            assert(step(a, pos, pending) == step(b, pos, pending));
            if let Step::Advance { pos: next, pending: gathered, item } = step(a, pos, pending) {
                lemma_unit_reads_ahead(a, b, next, terminator, gathered);
            }
        }
    }
}

/// A run of modifiers before a token that begins a global item, with a
/// token of the terminator's kind among the modifiers: the unit succeeds,
/// as it ends at the first such token.
pub proof fn lemma_run_ends_at_terminator(
    tokens: Seq<TokenView>,
    from: int,
    to: int,
    terminator: TokenKind,
    pending: Set<AstAttrs>,
)
    requires
        0 <= from <= to < tokens.len(),
        plain_run(tokens, from, to),
        starts_global_item(tokens[to].ty),
        !kind_absent(tokens, from, to, terminator),
    ensures
        parse_unit(tokens, from, terminator, pending).failure is None,
    decreases to - from,
{
    if tokens[from].ty != terminator {
        assert(from < to);
        assert(plain_modifier(tokens[from].ty) is Some);
        assert(starts_global_item(tokens[from + 1].ty)) by {
            if from + 1 < to {
                assert(plain_modifier(tokens[from + 1].ty) is Some);
            }
        }
        assert(!kind_absent(tokens, from + 1, to, terminator)) by {
            let i = choose|i: int| from <= i < to && #[trigger] tokens[i].ty == terminator;
            assert(from + 1 <= i < to && tokens[i].ty == terminator);
        }
        lemma_run_ends_at_terminator(
            tokens,
            from + 1,
            to,
            terminator,
            pending.insert(plain_modifier(tokens[from].ty)->0),
        );
    }
}

/// The order of the modifiers before a global item does not count. Two
/// terminated token sequences hold, from `pos` up to `end`, modifiers that
/// stand for the same attributes, in any order and number; from `end` on
/// they are the same, and there a global item begins. Then both units from
/// `pos` succeed or both fail. Where the terminator is not among the
/// modifiers, the two units end alike in everything: at the same token,
/// with the same diagnostic if they fail, and with the same declarations
/// recorded, each with the same attributes.
pub proof fn lemma_modifier_order(
    a: Seq<TokenView>,
    b: Seq<TokenView>,
    pos: int,
    end: int,
    terminator: TokenKind,
    pending: Set<AstAttrs>,
)
    requires
        is_terminated(a),
        a.len() == b.len(),
        0 <= pos <= end < a.len(),
        plain_run(a, pos, end),
        plain_run(b, pos, end),
        run_attrs(a, pos, end) == run_attrs(b, pos, end),
        forall|i: int| end <= i < a.len() ==> a[i] == b[i],
        starts_global_item(a[end].ty),
    ensures
        parse_unit(a, pos, terminator, pending).failure is None <==> parse_unit(
            b,
            pos,
            terminator,
            pending,
        ).failure is None,
        kind_absent(a, pos, end, terminator) ==> parse_unit(a, pos, terminator, pending)
            == parse_unit(b, pos, terminator, pending),
{
    assert(a[end] == b[end]);
    if kind_absent(a, pos, end, terminator) {
        lemma_same_kinds(a, b, pos, end, terminator);
    }
    if kind_absent(b, pos, end, terminator) {
        lemma_same_kinds(b, a, pos, end, terminator);
    }
    if kind_absent(a, pos, end, terminator) {
        lemma_run_gathers(a, pos, end, terminator, pending);
        lemma_run_gathers(b, pos, end, terminator, pending);
        lemma_unit_reads_ahead(a, b, end, terminator, pending + run_attrs(a, pos, end));
    } else {
        lemma_run_ends_at_terminator(a, pos, end, terminator, pending);
        lemma_run_ends_at_terminator(b, pos, end, terminator, pending);
    }
}

/// Two runs of modifiers that stand for the same attributes hold tokens of
/// the same kinds: a kind that is absent from the one is absent from the
/// other.
proof fn lemma_same_kinds(
    a: Seq<TokenView>,
    b: Seq<TokenView>,
    from: int,
    to: int,
    kind: TokenKind,
)
    requires
        plain_run(a, from, to),
        plain_run(b, from, to),
        run_attrs(a, from, to) == run_attrs(b, from, to),
        kind_absent(a, from, to, kind),
    ensures
        kind_absent(b, from, to, kind),
{
    assert forall|i: int| from <= i < to implies #[trigger] b[i].ty != kind by {
        if b[i].ty == kind {
            let attr = plain_modifier(b[i].ty)->0;
            assert(plain_modifier(b[i].ty) is Some);
            assert(run_attrs(b, from, to).contains(attr));
            assert(run_attrs(a, from, to).contains(attr));
            let j = choose|j: int|
                from <= j < to && plain_modifier(#[trigger] a[j].ty) == Some(attr);
            assert(a[j].ty == kind);
        }
    }
}

} // verus!
