use vstd::prelude::*;

use crate::ast::attrs::{AstAttrs, AttrHandler, ExternalLinkage};
use crate::frontend::global::{
    expected_global_item, item_views, linkage_named, parse_unit, recorded, starts_global_item,
    step, GlobalItem, GlobalItemView, ItemKind,
};
use crate::frontend::lexer::token::{Token, TokenKind, TokenType, TokenView};
use crate::frontend::lexer::{is_terminated, token_views, Lexer};
use crate::reports::{CompileError, CompileErrorView, Error, ErrorInfo, Reports};

verus! {

/// The driver of the front end: a cursor over the lexer's output, the
/// diagnostics reported so far and the declarations met so far.
pub struct Parser {
    tokens: Vec<Token>,
    token_index: usize,
    token: Token,
    reports: Reports,
    items: Vec<GlobalItem>,
}

/// The linkage that a specifier names, if it names one.
fn linkage_of(specifier: &String) -> (linkage: Option<ExternalLinkage>)
    ensures
        linkage == linkage_named(specifier@),
{
    if *specifier == "C".to_string() {
        Some(ExternalLinkage::C)
    } else if *specifier == "snowball".to_string() {
        Some(ExternalLinkage::Snowball)
    } else if *specifier == "system".to_string() {
        Some(ExternalLinkage::System)
    } else {
        None
    }
}

impl Parser {
    /// The token sequence that the parser reads.
    pub closed spec fn tokens(self) -> Seq<TokenView> {
        token_views(self.tokens@)
    }

    /// The index of the token under the cursor.
    pub closed spec fn position(self) -> int {
        self.token_index as int
    }

    /// The copy that the parser keeps of the token under the cursor.
    pub closed spec fn current(self) -> TokenView {
        self.token@
    }

    /// The diagnostics reported so far, oldest first.
    pub closed spec fn reports(self) -> Seq<CompileErrorView> {
        self.reports@
    }

    /// The declarations met so far, oldest first.
    pub closed spec fn items(self) -> Seq<GlobalItemView> {
        item_views(self.items@)
    }

    /// The token sequence ends with the end-of-input marker, the cursor
    /// stands on one of its tokens, and the kept copy is that token.
    pub open spec fn well_formed(self) -> bool {
        &&& is_terminated(self.tokens())
        &&& 0 <= self.position() < self.tokens().len()
        &&& self.current() == self.tokens()[self.position()]
    }

    /// A parser at the first token of the lexer's output, with nothing
    /// reported and nothing met.
    pub fn new(l: &Lexer) -> (parser: Parser)
        ensures
            parser.well_formed(),
            parser.tokens() == l@,
            parser.position() == 0,
            parser.reports() == Seq::<CompileErrorView>::empty(),
            parser.items() == Seq::<GlobalItemView>::empty(),
    {
        let given = l.get_tokens();
        let tokens = given.clone();
        assert(tokens@ =~= given@);
        let token = tokens[0].clone();
        let parser = Parser {
            tokens,
            token_index: 0,
            token,
            reports: Reports::new(),
            items: Vec::new(),
        };
        assert(parser.items() =~= Seq::<GlobalItemView>::empty());
        parser
    }

    /// Parses the whole input as one unit, up to the end-of-input marker.
    pub fn parse(&mut self) -> (r: Result<(), ()>)
        requires
            old(self).well_formed(),
        ensures
            final(self).well_formed(),
            final(self).tokens() == old(self).tokens(),
            ({
                let unit = parse_unit(
                    old(self).tokens(),
                    old(self).position(),
                    TokenKind::EOF,
                    Set::empty(),
                );
                &&& r is Ok <==> unit.failure is None
                &&& final(self).position() == unit.pos
                &&& final(self).reports() == old(self).reports() + unit.diagnostics()
                &&& final(self).items() == old(self).items() + unit.items
            }),
            r is Ok ==> final(self).current().ty == TokenKind::EOF,
    {
        self.parse_global(TokenType::EOF)
    }

    /// Reports one diagnostic at the token under the cursor.
    fn report(&mut self, kind: Error, info: Option<ErrorInfo>)
        requires
            old(self).well_formed(),
        ensures
            final(self).well_formed(),
            final(self).tokens() == old(self).tokens(),
            final(self).position() == old(self).position(),
            final(self).items() == old(self).items(),
            final(self).reports() == old(self).reports().push(
                CompileErrorView {
                    kind: kind@,
                    location: old(self).current().location,
                    info: match info {
                        Some(info) => Some(info@),
                        None => None,
                    },
                },
            ),
    {
        let error = CompileError::new(kind, self.token.get_location());
        match info {
            Some(info) => self.reports.add_error(error.with_info(info)),
            None => self.reports.add_error(error),
        }
    }

    /// Checks that the token under the cursor may begin a global item. If
    /// it may not, reports that a global item was expected after `after`.
    /// The cursor does not move.
    pub fn assert_global_item_next(&mut self, after: String) -> (r: Result<(), ()>)
        requires
            old(self).well_formed(),
        ensures
            final(self).well_formed(),
            final(self).tokens() == old(self).tokens(),
            final(self).position() == old(self).position(),
            final(self).items() == old(self).items(),
            r is Ok <==> starts_global_item(old(self).current().ty),
            r is Ok ==> final(self).reports() == old(self).reports(),
            r is Err ==> final(self).reports() == old(self).reports().push(
                expected_global_item(after@, old(self).current().location),
            ),
    {
        match self.token.get_type() {
            TokenType::Fn
            | TokenType::Struct
            | TokenType::Enum
            | TokenType::Class
            | TokenType::Const
            | TokenType::Public
            | TokenType::Private
            | TokenType::Static
            | TokenType::Inline
            | TokenType::External
            | TokenType::Abstract
            | TokenType::Final
            | TokenType::Interface => Ok(()),
            _ => {
                self.report(
                    Error::ExpectedItem("global item".to_string(), after),
                    Some(
                        ErrorInfo {
                            help: Some(
                                "There are only a few items that can be declared at the global scope".to_string(),
                            ),
                            see: Some(
                                "https://snowball-lang.gitbook.io/docs/language-reference/global-scope".to_string(),
                            ),
                            ..Default::default()
                        },
                    ),
                );
                Err(())
            },
        }
    }

    /// Records the declaration whose keyword stands under the cursor, with
    /// the modifiers gathered for it, and takes the keyword. The body of
    /// the declaration is not read.
    fn declare(&mut self, kind: ItemKind, attrs: AttrHandler)
        requires
            old(self).well_formed(),
            old(self).current().ty != TokenKind::EOF,
        ensures
            final(self).well_formed(),
            final(self).tokens() == old(self).tokens(),
            final(self).position() == old(self).position() + 1,
            final(self).reports() == old(self).reports(),
            final(self).items() == old(self).items().push(
                GlobalItemView { kind, attrs: attrs@, location: old(self).current().location },
            ),
    {
        let item = GlobalItem::new(kind, attrs, self.token.get_location());
        self.items.push(item);
        assert(self.items() =~= old(self).items().push(item@));
        self.next();
    }

    /// Takes a modifier that stands for `attr` by itself, gathers the
    /// attribute and checks that a global item follows.
    fn modifier(&mut self, attrs: &mut AttrHandler, attr: AstAttrs) -> (r: Result<(), ()>)
        requires
            old(self).well_formed(),
            old(self).current().ty != TokenKind::EOF,
        ensures
            final(self).well_formed(),
            final(self).tokens() == old(self).tokens(),
            final(self).position() == old(self).position() + 1,
            final(self).items() == old(self).items(),
            final(attrs)@ == old(attrs)@.insert(attr),
            r is Ok <==> starts_global_item(final(self).current().ty),
            r is Ok ==> final(self).reports() == old(self).reports(),
            r is Err ==> final(self).reports() == old(self).reports().push(
                expected_global_item(
                    old(self).current().ty.text(),
                    final(self).current().location,
                ),
            ),
    {
        let name = self.token.value();
        self.next();
        attrs.add_attr(attr);
        self.assert_global_item_next(name)
    }

    /// Parses one unit: global items up to the first token of the
    /// terminator's kind, which is left under the cursor. `parse_unit` says
    /// what is taken, recorded and reported. A unit that fails reports one
    /// diagnostic and stops where it failed.
    #[verifier::loop_isolation(false)]
    pub fn parse_global(&mut self, terminator: TokenType) -> (r: Result<(), ()>)
        requires
            old(self).well_formed(),
        ensures
            final(self).well_formed(),
            final(self).tokens() == old(self).tokens(),
            ({
                let unit = parse_unit(
                    old(self).tokens(),
                    old(self).position(),
                    terminator@,
                    Set::empty(),
                );
                &&& r is Ok <==> unit.failure is None
                &&& final(self).position() == unit.pos
                &&& final(self).reports() == old(self).reports() + unit.diagnostics()
                &&& final(self).items() == old(self).items() + unit.items
            }),
            r is Ok ==> final(self).current().ty == terminator@,
    {
        let ghost tokens = self.tokens();
        let ghost reports = self.reports();
        let ghost items = self.items();
        let ghost unit = parse_unit(tokens, self.position(), terminator@, Set::empty());
        let mut attrs = AttrHandler::new();
        while *self.token.get_type() != terminator
            invariant
                self.well_formed(),
                self.tokens() == tokens,
                self.reports() == reports,
                ({
                    let rest = parse_unit(tokens, self.position(), terminator@, attrs@);
                    &&& unit.pos == rest.pos
                    &&& unit.failure == rest.failure
                    &&& items + unit.items == self.items() + rest.items
                }),
            decreases tokens.len() - self.position(),
        {
            let ghost pos = self.position();
            let ghost round = step(tokens, pos, attrs@);
            let ghost met = self.items();
            match self.token.get_type() {
                TokenType::EOF => {
                    self.report(Error::UnexpectedEOF, None);
                    return Err(());
                },
                TokenType::Fn => {
                    self.declare(ItemKind::Function, attrs);
                    attrs = AttrHandler::new();
                },
                TokenType::Struct => {
                    self.declare(ItemKind::Struct, attrs);
                    attrs = AttrHandler::new();
                },
                TokenType::Enum => {
                    self.declare(ItemKind::Enum, attrs);
                    attrs = AttrHandler::new();
                },
                TokenType::Class => {
                    self.declare(ItemKind::Class, attrs);
                    attrs = AttrHandler::new();
                },
                TokenType::Const => {
                    self.declare(ItemKind::Const, attrs);
                    attrs = AttrHandler::new();
                },
                TokenType::Interface => {
                    self.declare(ItemKind::Interface, attrs);
                    attrs = AttrHandler::new();
                },
                TokenType::Public => {
                    self.modifier(&mut attrs, AstAttrs::Privacy(true))?;
                },
                TokenType::Private => {
                    self.modifier(&mut attrs, AstAttrs::Privacy(false))?;
                },
                TokenType::Static => {
                    self.modifier(&mut attrs, AstAttrs::Static)?;
                },
                TokenType::Inline => {
                    self.modifier(&mut attrs, AstAttrs::Inline)?;
                },
                TokenType::Abstract => {
                    self.modifier(&mut attrs, AstAttrs::Abstract)?;
                },
                TokenType::Final => {
                    self.modifier(&mut attrs, AstAttrs::Final)?;
                },
                TokenType::External => {
                    self.next();
                    match self.token.get_type() {
                        TokenType::String(data) => {
                            match linkage_of(data) {
                                Some(linkage) => attrs.add_attr(AstAttrs::External(linkage)),
                                None => {
                                    let text = data.clone();
                                    self.report(
                                        Error::InvalidExternalSpecifier(text),
                                        Some(
                                            ErrorInfo {
                                                help: Some(
                                                    "The external specifier must be one of the following: 'C', 'snowball', 'system'".to_string(),
                                                ),
                                                info: Some(
                                                    "Not a valid external specifier!".to_string(),
                                                ),
                                                note: Some(
                                                    "External specifiers are used to specify the data that is being imported from an external source".to_string(),
                                                ),
                                                see: Some(
                                                    "https://snowball-lang.gitbook.io/docs/language-reference/external-specifier".to_string(),
                                                ),
                                            },
                                        ),
                                    );
                                    return Err(());
                                },
                            }
                            self.next();
                        },
                        _ => {
                            self.report(
                                Error::ExpectedItem(
                                    "external specifier".to_string(),
                                    "external".to_string(),
                                ),
                                Some(
                                    ErrorInfo {
                                        help: Some(
                                            "The external specifier must be a string literal".to_string(),
                                        ),
                                        note: Some(
                                            "External specifiers are used to specify the data that is being imported from an external source".to_string(),
                                        ),
                                        see: Some(
                                            "https://snowball-lang.gitbook.io/docs/language-reference/external-specifier".to_string(),
                                        ),
                                        ..Default::default()
                                    },
                                ),
                            );
                            return Err(());
                        },
                    }
                    self.assert_global_item_next("external".to_string())?;
                },
                _ => {
                    let text = self.token.value();
                    self.report(Error::UnexpectedToken(text), None);
                    return Err(());
                },
            }
            proof {
                let after = parse_unit(tokens, self.position(), terminator@, attrs@);
                assert(met + (recorded(round->Advance_item) + after.items) =~= (met + recorded(
                    round->Advance_item,
                )) + after.items);
                assert(met + recorded(round->Advance_item) =~= self.items());
            }
        }
        Ok(())
    }

    /// Moves the cursor to the next token.
    pub fn next(&mut self)
        requires
            old(self).well_formed(),
            old(self).position() + 1 < old(self).tokens().len(),
        ensures
            final(self).well_formed(),
            final(self).tokens() == old(self).tokens(),
            final(self).position() == old(self).position() + 1,
            final(self).reports() == old(self).reports(),
            final(self).items() == old(self).items(),
    {
        assert(self.tokens().len() == self.tokens.len());
        self.token_index += 1;
        self.token = self.tokens[self.token_index].clone();
    }

    /// Whether a token stands after the one under the cursor, so that the
    /// cursor can move.
    pub fn has_next(&self) -> (more: bool)
        ensures
            more == (self.position() + 1 < self.tokens().len()),
    {
        assert(self.tokens().len() == self.tokens.len());
        self.token_index < self.tokens.len() && self.tokens.len() - self.token_index > 1
    }

    pub fn get_reports(&self) -> (reports: &Reports)
        ensures
            reports@ == self.reports(),
    {
        &self.reports
    }

    pub fn get_items(&self) -> (items: &Vec<GlobalItem>)
        ensures
            item_views(items@) == self.items(),
    {
        &self.items
    }

    /// The token under the cursor.
    pub fn get_token(&self) -> (token: &Token)
        ensures
            token@ == self.current(),
    {
        &self.token
    }

    /// The index of the token under the cursor.
    pub fn get_index(&self) -> (index: usize)
        ensures
            index == self.position(),
    {
        self.token_index
    }
}

} // verus!
