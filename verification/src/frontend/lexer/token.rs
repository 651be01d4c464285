use vstd::prelude::*;
use vstd::std_specs::cmp::PartialEqSpecImpl;

verus! {

/// A place in the source text.
#[derive(Clone, Copy, Debug, PartialEq, Eq, Structural)]
pub struct Location {
    pub line: usize,
    pub column: usize,
}

/// The tag of a token. The tags of identifiers and literals carry the text
/// that the lexer read for them.
#[derive(Debug)]
pub enum TokenType {
    Identifier(String),
    Number(String),
    String(String),
    Fn,
    Struct,
    Enum,
    Class,
    Const,
    Interface,
    Public,
    Private,
    Static,
    Inline,
    External,
    Abstract,
    Final,
    LParen,
    RParen,
    LBrace,
    RBrace,
    Semicolon,
    EOF,
}

/// What a `TokenType` stands for: the same tags, with the carried text as a
/// sequence of characters.
pub enum TokenKind {
    Identifier(Seq<char>),
    Number(Seq<char>),
    String(Seq<char>),
    Fn,
    Struct,
    Enum,
    Class,
    Const,
    Interface,
    Public,
    Private,
    Static,
    Inline,
    External,
    Abstract,
    Final,
    LParen,
    RParen,
    LBrace,
    RBrace,
    Semicolon,
    EOF,
}

impl TokenKind {
    /// The text of a token of this kind as it stands in the source: the
    /// carried text of an identifier or a literal, the spelling of a keyword
    /// or of a punctuation mark, and nothing for the end of the input.
    pub open spec fn text(self) -> Seq<char> {
        match self {
            TokenKind::Identifier(s) => s,
            TokenKind::Number(s) => s,
            TokenKind::String(s) => s,
            TokenKind::Fn => "fn"@,
            TokenKind::Struct => "struct"@,
            TokenKind::Enum => "enum"@,
            TokenKind::Class => "class"@,
            TokenKind::Const => "const"@,
            TokenKind::Interface => "interface"@,
            TokenKind::Public => "public"@,
            TokenKind::Private => "private"@,
            TokenKind::Static => "static"@,
            TokenKind::Inline => "inline"@,
            TokenKind::External => "external"@,
            TokenKind::Abstract => "abstract"@,
            TokenKind::Final => "final"@,
            TokenKind::LParen => "("@,
            TokenKind::RParen => ")"@,
            TokenKind::LBrace => "{"@,
            TokenKind::RBrace => "}"@,
            TokenKind::Semicolon => ";"@,
            TokenKind::EOF => ""@,
        }
    }
}

impl View for TokenType {
    type V = TokenKind;

    open spec fn view(&self) -> TokenKind {
        match self {
            TokenType::Identifier(s) => TokenKind::Identifier(s@),
            TokenType::Number(s) => TokenKind::Number(s@),
            TokenType::String(s) => TokenKind::String(s@),
            TokenType::Fn => TokenKind::Fn,
            TokenType::Struct => TokenKind::Struct,
            TokenType::Enum => TokenKind::Enum,
            TokenType::Class => TokenKind::Class,
            TokenType::Const => TokenKind::Const,
            TokenType::Interface => TokenKind::Interface,
            TokenType::Public => TokenKind::Public,
            TokenType::Private => TokenKind::Private,
            TokenType::Static => TokenKind::Static,
            TokenType::Inline => TokenKind::Inline,
            TokenType::External => TokenKind::External,
            TokenType::Abstract => TokenKind::Abstract,
            TokenType::Final => TokenKind::Final,
            TokenType::LParen => TokenKind::LParen,
            TokenType::RParen => TokenKind::RParen,
            TokenType::LBrace => TokenKind::LBrace,
            TokenType::RBrace => TokenKind::RBrace,
            TokenType::Semicolon => TokenKind::Semicolon,
            TokenType::EOF => TokenKind::EOF,
        }
    }
}

impl Clone for TokenType {
    fn clone(&self) -> (res: TokenType)
        ensures
            res == *self,
    {
        match self {
            TokenType::Identifier(s) => TokenType::Identifier(s.clone()),
            TokenType::Number(s) => TokenType::Number(s.clone()),
            TokenType::String(s) => TokenType::String(s.clone()),
            TokenType::Fn => TokenType::Fn,
            TokenType::Struct => TokenType::Struct,
            TokenType::Enum => TokenType::Enum,
            TokenType::Class => TokenType::Class,
            TokenType::Const => TokenType::Const,
            TokenType::Interface => TokenType::Interface,
            TokenType::Public => TokenType::Public,
            TokenType::Private => TokenType::Private,
            TokenType::Static => TokenType::Static,
            TokenType::Inline => TokenType::Inline,
            TokenType::External => TokenType::External,
            TokenType::Abstract => TokenType::Abstract,
            TokenType::Final => TokenType::Final,
            TokenType::LParen => TokenType::LParen,
            TokenType::RParen => TokenType::RParen,
            TokenType::LBrace => TokenType::LBrace,
            TokenType::RBrace => TokenType::RBrace,
            TokenType::Semicolon => TokenType::Semicolon,
            TokenType::EOF => TokenType::EOF,
        }
    }
}

impl PartialEq for TokenType {
    /// Two tags are equal when they are the same tag and carry the same text.
    fn eq(&self, other: &TokenType) -> (r: bool) {
        match (self, other) {
            (TokenType::Identifier(a), TokenType::Identifier(b)) => *a == *b,
            (TokenType::Number(a), TokenType::Number(b)) => *a == *b,
            (TokenType::String(a), TokenType::String(b)) => *a == *b,
            (TokenType::Fn, TokenType::Fn) => true,
            (TokenType::Struct, TokenType::Struct) => true,
            (TokenType::Enum, TokenType::Enum) => true,
            (TokenType::Class, TokenType::Class) => true,
            (TokenType::Const, TokenType::Const) => true,
            (TokenType::Interface, TokenType::Interface) => true,
            (TokenType::Public, TokenType::Public) => true,
            (TokenType::Private, TokenType::Private) => true,
            (TokenType::Static, TokenType::Static) => true,
            (TokenType::Inline, TokenType::Inline) => true,
            (TokenType::External, TokenType::External) => true,
            (TokenType::Abstract, TokenType::Abstract) => true,
            (TokenType::Final, TokenType::Final) => true,
            (TokenType::LParen, TokenType::LParen) => true,
            (TokenType::RParen, TokenType::RParen) => true,
            (TokenType::LBrace, TokenType::LBrace) => true,
            (TokenType::RBrace, TokenType::RBrace) => true,
            (TokenType::Semicolon, TokenType::Semicolon) => true,
            (TokenType::EOF, TokenType::EOF) => true,
            _ => false,
        }
    }
}

impl PartialEqSpecImpl for TokenType {
    open spec fn obeys_eq_spec() -> bool {
        true
    }

    open spec fn eq_spec(&self, other: &TokenType) -> bool {
        self@ == other@
    }
}

impl Eq for TokenType {

}

/// What a `Token` stands for.
pub struct TokenView {
    pub ty: TokenKind,
    pub location: Location,
}

/// One token of the lexer's output: a tag and the place where it was read.
#[derive(Debug)]
pub struct Token {
    ty: TokenType,
    location: Location,
}

impl View for Token {
    type V = TokenView;

    closed spec fn view(&self) -> TokenView {
        TokenView { ty: self.ty@, location: self.location }
    }
}

impl Clone for Token {
    fn clone(&self) -> (res: Token)
        ensures
            res == *self,
    {
        Token { ty: self.ty.clone(), location: self.location }
    }
}

impl Token {
    pub fn new(ty: TokenType, location: Location) -> (token: Token)
        ensures
            token@ == (TokenView { ty: ty@, location }),
    {
        Token { ty, location }
    }

    pub fn get_type(&self) -> (ty: &TokenType)
        ensures
            ty@ == self@.ty,
    {
        &self.ty
    }

    pub fn get_location(&self) -> (location: Location)
        ensures
            location == self@.location,
    {
        self.location
    }

    /// The text of the token, as `TokenKind::text` gives it.
    pub fn value(&self) -> (text: String)
        ensures
            text@ == self@.ty.text(),
    {
        match &self.ty {
            TokenType::Identifier(s) => s.clone(),
            TokenType::Number(s) => s.clone(),
            TokenType::String(s) => s.clone(),
            TokenType::Fn => "fn".to_string(),
            TokenType::Struct => "struct".to_string(),
            TokenType::Enum => "enum".to_string(),
            TokenType::Class => "class".to_string(),
            TokenType::Const => "const".to_string(),
            TokenType::Interface => "interface".to_string(),
            TokenType::Public => "public".to_string(),
            TokenType::Private => "private".to_string(),
            TokenType::Static => "static".to_string(),
            TokenType::Inline => "inline".to_string(),
            TokenType::External => "external".to_string(),
            TokenType::Abstract => "abstract".to_string(),
            TokenType::Final => "final".to_string(),
            TokenType::LParen => "(".to_string(),
            TokenType::RParen => ")".to_string(),
            TokenType::LBrace => "{".to_string(),
            TokenType::RBrace => "}".to_string(),
            TokenType::Semicolon => ";".to_string(),
            TokenType::EOF => "".to_string(),
        }
    }
}

} // verus!
