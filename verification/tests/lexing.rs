use prefix_compiler::errors::CompileError;
use prefix_compiler::lexer::{create_tokens, TokenType};

#[test]
fn each_digit_lexes_to_one_number_token() {
    for d in ['0', '1', '2', '3', '4', '5', '6', '7', '8', '9'] {
        let input = d.to_string();
        let tokens = create_tokens(&input).unwrap();
        assert_eq!(tokens.len(), 1);
        assert_eq!(tokens[0].token_type, TokenType::Number);
        assert_eq!(tokens[0].value, d.to_string());
    }
}

#[test]
fn whitespace_only_input_lexes_to_no_tokens() {
    let tokens = create_tokens(" \t\n\r  ").unwrap();
    assert!(tokens.is_empty());
}

#[test]
fn empty_input_lexes_to_no_tokens() {
    let tokens = create_tokens("").unwrap();
    assert!(tokens.is_empty());
}

#[test]
fn unsupported_character_fails_naming_it() {
    let err = create_tokens("$").unwrap_err();
    assert_eq!(err, CompileError::LexError { ch: '$' });
}

#[test]
fn first_unsupported_character_is_the_one_named() {
    let err = create_tokens("(+ 1 $ %)").unwrap_err();
    assert_eq!(err, CompileError::LexError { ch: '$' });
}

#[test]
fn tokens_keep_their_source_order() {
    let tokens = create_tokens("(+ 1 5)").unwrap();
    let kinds: Vec<TokenType> = tokens.iter().map(|t| t.token_type).collect();
    assert_eq!(
        kinds,
        vec![
            TokenType::LParen,
            TokenType::Operator,
            TokenType::Number,
            TokenType::Number,
            TokenType::RParen,
        ]
    );
    let texts: Vec<&str> = tokens.iter().map(|t| t.value.as_str()).collect();
    assert_eq!(texts, vec!["(", "+", "1", "5", ")"]);
}

#[test]
fn every_single_character_token_is_lexed() {
    for (c, kind) in [
        ('(', TokenType::LParen),
        (')', TokenType::RParen),
        ('+', TokenType::Operator),
        ('-', TokenType::Operator),
        ('*', TokenType::Operator),
        ('/', TokenType::Operator),
    ] {
        let input = c.to_string();
        let tokens = create_tokens(&input).unwrap();
        assert_eq!(tokens.len(), 1);
        assert_eq!(tokens[0].token_type, kind);
        assert_eq!(tokens[0].value, c.to_string());
    }
}
