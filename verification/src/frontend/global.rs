//! The grammar of the global scope: what the driver does with a token
//! sequence, told in spec functions over the views of the tokens.
//!
//! The global scope holds declarations, each with modifiers before its
//! keyword. The driver gathers the modifiers, and at the keyword of a
//! declaration it records the declaration with what it gathered. The bodies
//! of declarations are not read here: a token of a body is a stray token to
//! this grammar.

use vstd::prelude::*;

use crate::ast::attrs::{AstAttrs, AttrHandler, ExternalLinkage};
use crate::frontend::lexer::token::{Location, TokenKind, TokenView};
use crate::reports::{CompileErrorView, ErrorInfoView, ErrorView};

verus! {

/// The kinds of declaration that the global scope takes.
#[derive(Clone, Copy, Debug, PartialEq, Eq, Structural)]
pub enum ItemKind {
    Function,
    Struct,
    Enum,
    Class,
    Const,
    Interface,
}

/// What a recorded declaration stands for: its kind, the modifiers that
/// stood before its keyword, and the place of the keyword.
pub struct GlobalItemView {
    pub kind: ItemKind,
    pub attrs: Set<AstAttrs>,
    pub location: Location,
}

/// A declaration met at the global scope, with the modifiers that stood
/// before it. The declaration's body is not read here.
#[derive(Debug)]
pub struct GlobalItem {
    kind: ItemKind,
    attrs: AttrHandler,
    location: Location,
}

impl View for GlobalItem {
    type V = GlobalItemView;

    closed spec fn view(&self) -> GlobalItemView {
        GlobalItemView { kind: self.kind, attrs: self.attrs@, location: self.location }
    }
}

impl GlobalItem {
    pub fn new(kind: ItemKind, attrs: AttrHandler, location: Location) -> (item: GlobalItem)
        ensures
            item@ == (GlobalItemView { kind, attrs: attrs@, location }),
    {
        GlobalItem { kind, attrs, location }
    }

    pub fn get_kind(&self) -> (kind: ItemKind)
        ensures
            kind == self@.kind,
    {
        self.kind
    }

    pub fn get_attrs(&self) -> (attrs: &AttrHandler)
        ensures
            attrs@ == self@.attrs,
    {
        &self.attrs
    }

    pub fn get_location(&self) -> (location: Location)
        ensures
            location == self@.location,
    {
        self.location
    }

    /// Gives up the modifiers, to be attached to the node that is built
    /// for the declaration.
    pub fn into_attrs(self) -> (attrs: AttrHandler)
        ensures
            attrs@ == self@.attrs,
    {
        self.attrs
    }
}

/// The views of a run of declarations, one for one.
pub open spec fn item_views(items: Seq<GlobalItem>) -> Seq<GlobalItemView> {
    items.map_values(|item: GlobalItem| item@)
}

/// The kind of declaration that a keyword opens, if it opens one.
pub open spec fn declared_kind(kind: TokenKind) -> Option<ItemKind> {
    match kind {
        TokenKind::Fn => Some(ItemKind::Function),
        TokenKind::Struct => Some(ItemKind::Struct),
        TokenKind::Enum => Some(ItemKind::Enum),
        TokenKind::Class => Some(ItemKind::Class),
        TokenKind::Const => Some(ItemKind::Const),
        TokenKind::Interface => Some(ItemKind::Interface),
        _ => None,
    }
}

/// The attribute that a modifier keyword stands for by itself. `external`
/// is a modifier too, but its attribute depends on the specifier after it.
pub open spec fn plain_modifier(kind: TokenKind) -> Option<AstAttrs> {
    match kind {
        TokenKind::Public => Some(AstAttrs::Privacy(true)),
        TokenKind::Private => Some(AstAttrs::Privacy(false)),
        TokenKind::Static => Some(AstAttrs::Static),
        TokenKind::Inline => Some(AstAttrs::Inline),
        TokenKind::Abstract => Some(AstAttrs::Abstract),
        TokenKind::Final => Some(AstAttrs::Final),
        _ => None,
    }
}

/// Whether a token of this kind may begin a global item: a declaration
/// keyword or a modifier.
pub open spec fn starts_global_item(kind: TokenKind) -> bool {
    declared_kind(kind) is Some || plain_modifier(kind) is Some || kind == TokenKind::External
}

/// The linkage that a specifier names, if it names one.
pub open spec fn linkage_named(specifier: Seq<char>) -> Option<ExternalLinkage> {
    if specifier == "C"@ {
        Some(ExternalLinkage::C)
    } else if specifier == "snowball"@ {
        Some(ExternalLinkage::Snowball)
    } else if specifier == "system"@ {
        Some(ExternalLinkage::System)
    } else {
        None
    }
}

/// The diagnostic for an input that ends inside a parse unit.
pub open spec fn unexpected_eof(at: Location) -> CompileErrorView {
    CompileErrorView { kind: ErrorView::UnexpectedEOF, location: at, info: None }
}

/// The diagnostic for a token that begins no global item.
pub open spec fn unexpected_token(text: Seq<char>, at: Location) -> CompileErrorView {
    CompileErrorView { kind: ErrorView::UnexpectedToken(text), location: at, info: None }
}

/// The diagnostic for a modifier that no global item follows.
pub open spec fn expected_global_item(after: Seq<char>, at: Location) -> CompileErrorView {
    CompileErrorView {
        kind: ErrorView::ExpectedItem("global item"@, after),
        location: at,
        info: Some(
            ErrorInfoView {
                help: Some(
                    "There are only a few items that can be declared at the global scope"@,
                ),
                info: None,
                note: None,
                see: Some(
                    "https://snowball-lang.gitbook.io/docs/language-reference/global-scope"@,
                ),
            },
        ),
    }
}

/// The diagnostic for `external` without a string literal after it.
pub open spec fn expected_external_specifier(at: Location) -> CompileErrorView {
    CompileErrorView {
        kind: ErrorView::ExpectedItem("external specifier"@, "external"@),
        location: at,
        info: Some(
            ErrorInfoView {
                help: Some("The external specifier must be a string literal"@),
                info: None,
                note: Some(
                    "External specifiers are used to specify the data that is being imported from an external source"@,
                ),
                see: Some(
                    "https://snowball-lang.gitbook.io/docs/language-reference/external-specifier"@,
                ),
            },
        ),
    }
}

/// The diagnostic for a specifier that names no linkage.
pub open spec fn invalid_external_specifier(text: Seq<char>, at: Location) -> CompileErrorView {
    CompileErrorView {
        kind: ErrorView::InvalidExternalSpecifier(text),
        location: at,
        info: Some(
            ErrorInfoView {
                help: Some(
                    "The external specifier must be one of the following: 'C', 'snowball', 'system'"@,
                ),
                info: Some("Not a valid external specifier!"@),
                note: Some(
                    "External specifiers are used to specify the data that is being imported from an external source"@,
                ),
                see: Some(
                    "https://snowball-lang.gitbook.io/docs/language-reference/external-specifier"@,
                ),
            },
        ),
    }
}

/// What one round of the driver does.
pub enum Step {
    /// The driver took tokens and goes on at `pos`, with these modifiers
    /// gathered for the next declaration and, if it met the keyword of a
    /// declaration, that declaration.
    Advance { pos: int, pending: Set<AstAttrs>, item: Option<GlobalItemView> },
    /// The driver stopped with the cursor at `pos` and reported this.
    Fail { pos: int, diagnostic: CompileErrorView },
}

/// The check after a modifier: the token at `pos` has to begin a global
/// item. It is looked at and not taken.
pub open spec fn item_after(
    tokens: Seq<TokenView>,
    pos: int,
    after: Seq<char>,
    pending: Set<AstAttrs>,
) -> Step {
    if starts_global_item(tokens[pos].ty) {
        Step::Advance { pos, pending, item: None }
    } else {
        Step::Fail { pos, diagnostic: expected_global_item(after, tokens[pos].location) }
    }
}

/// One round of the driver on the token at `pos`, which is not the
/// terminator, with the modifiers in `pending` gathered so far.
///
/// - The end of the input fails the unit.
/// - The keyword of a declaration is taken; the declaration gets the
///   gathered modifiers, and the gathering starts anew.
/// - A modifier is taken and gathered, and a global item has to follow.
///   After `external` stands a string literal that names the linkage.
/// - Any other token fails the unit.
pub open spec fn step(tokens: Seq<TokenView>, pos: int, pending: Set<AstAttrs>) -> Step {
    let token = tokens[pos];
    if token.ty == TokenKind::EOF {
        Step::Fail { pos, diagnostic: unexpected_eof(token.location) }
    } else if let Some(kind) = declared_kind(token.ty) {
        Step::Advance {
            pos: pos + 1,
            pending: Set::empty(),
            item: Some(GlobalItemView { kind, attrs: pending, location: token.location }),
        }
    } else if let Some(attr) = plain_modifier(token.ty) {
        item_after(tokens, pos + 1, token.ty.text(), pending.insert(attr))
    } else if token.ty == TokenKind::External {
        let specifier = tokens[pos + 1];
        match specifier.ty {
            TokenKind::String(name) => match linkage_named(name) {
                Some(linkage) => item_after(
                    tokens,
                    pos + 2,
                    token.ty.text(),
                    pending.insert(AstAttrs::External(linkage)),
                ),
                None => Step::Fail {
                    pos: pos + 1,
                    diagnostic: invalid_external_specifier(name, specifier.location),
                },
            },
            _ => Step::Fail {
                pos: pos + 1,
                diagnostic: expected_external_specifier(specifier.location),
            },
        }
    } else {
        Step::Fail { pos, diagnostic: unexpected_token(token.ty.text(), token.location) }
    }
}

/// How a parse unit ends: where the cursor stands, the declarations that
/// were recorded, and the diagnostic if the unit failed.
pub struct Outcome {
    pub pos: int,
    pub items: Seq<GlobalItemView>,
    pub failure: Option<CompileErrorView>,
}

impl Outcome {
    /// The diagnostics of the unit: one if it failed, none if not.
    pub open spec fn diagnostics(self) -> Seq<CompileErrorView> {
        match self.failure {
            Some(diagnostic) => seq![diagnostic],
            None => seq![],
        }
    }
}

/// The declarations that one round records: one or none.
pub open spec fn recorded(item: Option<GlobalItemView>) -> Seq<GlobalItemView> {
    match item {
        Some(item) => seq![item],
        None => seq![],
    }
}

/// A parse unit from the token at `pos` on: rounds of `step` until a token
/// of the terminator's kind stands under the cursor, which ends the unit
/// well, or until a round fails, which ends it at once. The terminator is
/// looked for before each round, so a modifier or a keyword of its kind ends
/// the unit too. Modifiers that are gathered when the unit ends go with no
/// declaration.
///
/// In a terminated token sequence a round never leaves the sequence
/// (`lemma_unit_ends_in_bounds`); the test on `next` is there for the other
/// sequences, on which a unit is not run.
pub open spec fn parse_unit(
    tokens: Seq<TokenView>,
    pos: int,
    terminator: TokenKind,
    pending: Set<AstAttrs>,
) -> Outcome
    decreases tokens.len() - pos,
{
    if pos < 0 || pos >= tokens.len() || tokens[pos].ty == terminator {
        Outcome { pos, items: seq![], failure: None }
    } else {
        match step(tokens, pos, pending) {
            Step::Fail { pos: at, diagnostic } => Outcome {
                pos: at,
                items: seq![],
                failure: Some(diagnostic),
            },
            Step::Advance { pos: next, pending: gathered, item } => {
                if pos < next <= tokens.len() {
                    let rest = parse_unit(tokens, next, terminator, gathered);
                    Outcome {
                        pos: rest.pos,
                        items: recorded(item) + rest.items,
                        failure: rest.failure,
                    }
                } else {
                    Outcome { pos, items: seq![], failure: None }
                }
            },
        }
    }
}

} // verus!
