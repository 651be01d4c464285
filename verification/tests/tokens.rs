use snowball::frontend::lexer::token::{Location, Token, TokenType};
use snowball::frontend::lexer::Lexer;

fn here(line: usize, column: usize) -> Location {
    Location { line, column }
}

#[test]
fn keyword_text_is_its_spelling() {
    let cases = vec![
        (TokenType::Fn, "fn"),
        (TokenType::Struct, "struct"),
        (TokenType::Enum, "enum"),
        (TokenType::Class, "class"),
        (TokenType::Const, "const"),
        (TokenType::Interface, "interface"),
        (TokenType::Public, "public"),
        (TokenType::Private, "private"),
        (TokenType::Static, "static"),
        (TokenType::Inline, "inline"),
        (TokenType::External, "external"),
        (TokenType::Abstract, "abstract"),
        (TokenType::Final, "final"),
        (TokenType::LParen, "("),
        (TokenType::RParen, ")"),
        (TokenType::LBrace, "{"),
        (TokenType::RBrace, "}"),
        (TokenType::Semicolon, ";"),
        (TokenType::EOF, ""),
    ];
    for (ty, text) in cases {
        assert_eq!(Token::new(ty, here(1, 1)).value(), text);
    }
}

#[test]
fn literal_text_is_what_it_carries() {
    assert_eq!(Token::new(TokenType::Identifier("main".to_string()), here(1, 1)).value(), "main");
    assert_eq!(Token::new(TokenType::Number("42".to_string()), here(1, 1)).value(), "42");
    assert_eq!(Token::new(TokenType::String("C".to_string()), here(1, 1)).value(), "C");
}

#[test]
fn token_keeps_type_and_location() {
    let token = Token::new(TokenType::Identifier("x".to_string()), here(3, 9));
    assert_eq!(token.get_type(), &TokenType::Identifier("x".to_string()));
    assert_eq!(token.get_location(), here(3, 9));
    assert_eq!(token.get_location().line, 3);
    assert_eq!(token.get_location().column, 9);
}

#[test]
fn token_types_compare_tag_and_text() {
    assert!(TokenType::Fn == TokenType::Fn);
    assert!(TokenType::Fn != TokenType::Struct);
    assert!(TokenType::EOF != TokenType::RBrace);
    assert!(TokenType::String("C".to_string()) == TokenType::String("C".to_string()));
    assert!(TokenType::String("C".to_string()) != TokenType::String("c".to_string()));
    assert!(TokenType::String("x".to_string()) != TokenType::Identifier("x".to_string()));
    assert!(TokenType::Number("1".to_string()) != TokenType::Identifier("1".to_string()));
}

#[test]
fn token_clone_is_equal() {
    let token = Token::new(TokenType::String("snowball".to_string()), here(2, 4));
    let copy = token.clone();
    assert_eq!(copy.get_type(), token.get_type());
    assert_eq!(copy.get_location(), token.get_location());
    assert_eq!(copy.value(), "snowball");
    assert_eq!(TokenType::Final.clone(), TokenType::Final);
}

#[test]
fn lexer_refuses_empty_output() {
    assert!(Lexer::from_tokens(Vec::new()).is_none());
}

#[test]
fn lexer_refuses_output_without_end_marker() {
    let tokens = vec![
        Token::new(TokenType::Public, here(1, 1)),
        Token::new(TokenType::Fn, here(1, 8)),
    ];
    assert!(Lexer::from_tokens(tokens).is_none());
    let tokens = vec![
        Token::new(TokenType::EOF, here(1, 1)),
        Token::new(TokenType::Fn, here(1, 2)),
    ];
    assert!(Lexer::from_tokens(tokens).is_none());
}

#[test]
fn lexer_keeps_terminated_output_in_order() {
    let tokens = vec![
        Token::new(TokenType::Public, here(1, 1)),
        Token::new(TokenType::Fn, here(1, 8)),
        Token::new(TokenType::EOF, here(1, 10)),
    ];
    let lexer = Lexer::from_tokens(tokens).expect("ends with the end marker");
    let kept = lexer.get_tokens();
    assert_eq!(kept.len(), 3);
    assert_eq!(kept[0].get_type(), &TokenType::Public);
    assert_eq!(kept[1].get_type(), &TokenType::Fn);
    assert_eq!(kept[2].get_type(), &TokenType::EOF);
    assert_eq!(kept[1].get_location(), here(1, 8));
}
