use vstd::prelude::*;

pub mod token;

use token::{Token, TokenKind, TokenType, TokenView};

verus! {

/// The views of a run of tokens, one for one.
pub open spec fn token_views(tokens: Seq<Token>) -> Seq<TokenView> {
    tokens.map_values(|t: Token| t@)
}

/// A token sequence is terminated when it is not empty and its last token
/// marks the end of the input.
pub open spec fn is_terminated(tokens: Seq<TokenView>) -> bool {
    tokens.len() > 0 && tokens.last().ty == TokenKind::EOF
}

/// The output of lexing: a token sequence that ends with the end-of-input
/// marker.
#[derive(Debug)]
pub struct Lexer {
    tokens: Vec<Token>,
}

impl View for Lexer {
    type V = Seq<TokenView>;

    closed spec fn view(&self) -> Seq<TokenView> {
        token_views(self.tokens@)
    }
}

impl Lexer {
    #[verifier::type_invariant]
    spec fn terminated(self) -> bool {
        is_terminated(token_views(self.tokens@))
    }

    /// Takes a token sequence as lexer output. The sequence is refused when
    /// it is empty or does not end with the end-of-input marker.
    pub fn from_tokens(tokens: Vec<Token>) -> (lexer: Option<Lexer>)
        ensures
            lexer is Some <==> is_terminated(token_views(tokens@)),
            lexer matches Some(l) ==> l@ == token_views(tokens@),
    {
        let n = tokens.len();
        if n == 0 {
            return None;
        }
        if tokens[n - 1].get_type() == &TokenType::EOF {
            Some(Lexer { tokens })
        } else {
            None
        }
    }

    pub fn get_tokens(&self) -> (tokens: &Vec<Token>)
        ensures
            token_views(tokens@) == self@,
            is_terminated(self@),
    {
        proof {
            use_type_invariant(self);
        }
        &self.tokens
    }
}

} // verus!
