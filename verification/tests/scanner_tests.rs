use rlox::scanner::{is_alpha, is_digit, Scanner};
use rlox::tokens::{Token, TokenType};

fn chars(input: &str) -> Vec<char> {
    input.chars().collect()
}

fn scan(input: &str) -> Vec<Token> {
    Scanner::new(chars(input)).parse()
}

fn types(tokens: &[Token]) -> Vec<TokenType> {
    tokens.iter().map(|t| t.get_token_type()).collect()
}

fn lexemes(tokens: &[Token]) -> Vec<String> {
    tokens
        .iter()
        .filter(|t| t.get_token_type() != TokenType::Eof)
        .map(|t| t.get_lexeme().iter().collect::<String>())
        .collect()
}

#[test]
fn punctuation() {
    let result = scan("(){};,.-+/*!!====<<=>>=");

    let expected_types = vec![
        TokenType::LeftParen,
        TokenType::RightParen,
        TokenType::LeftBrace,
        TokenType::RightBrace,
        TokenType::Semicolon,
        TokenType::Comma,
        TokenType::Dot,
        TokenType::Minus,
        TokenType::Plus,
        TokenType::Slash,
        TokenType::Star,
        TokenType::Bang,
        TokenType::BangEqual,
        TokenType::EqualEqual,
        TokenType::Equal,
        TokenType::Less,
        TokenType::LessEqual,
        TokenType::Greater,
        TokenType::GreaterEqual,
        TokenType::Eof,
    ];
    assert_eq!(types(&result), expected_types);
}

#[test]
fn numbers() {
    let expected = vec!["1", "2", "3.4", "5.6", "123.346", "0.034"];
    let result = scan(&expected.join(" "));
    assert_eq!(result.len(), expected.len() + 1);
    assert!(types(&result)
        .iter()
        .filter(|tt| *tt != &TokenType::Eof)
        .all(|t| t.eq(&TokenType::Number)));
    assert_eq!(lexemes(&result), expected);
}

#[test]
fn keywords() {
    let keyword = vec![
        "and", "class", "else", "false", "for", "fun", "if", "nil", "or", "print", "return",
        "super", "this", "true", "var", "while",
    ];

    let tokens = vec![
        TokenType::And,
        TokenType::Class,
        TokenType::Else,
        TokenType::False,
        TokenType::For,
        TokenType::Fun,
        TokenType::If,
        TokenType::Nil,
        TokenType::Or,
        TokenType::Print,
        TokenType::Return,
        TokenType::Super,
        TokenType::This,
        TokenType::True,
        TokenType::Var,
        TokenType::While,
        TokenType::Eof,
    ];

    let result = scan(&keyword.join(" "));
    assert_eq!(result.len(), keyword.len() + 1);
    assert_eq!(types(&result), tokens);
}

#[test]
fn identifiers() {
    let expected = vec!["iff", "suuper", "fun_", "H3110"];
    let result = scan("iff suuper fun_ H3110");

    assert_eq!(result.len(), expected.len() + 1);
    assert!(types(&result)
        .iter()
        .filter(|tt| *tt != &TokenType::Eof)
        .all(|t| t.eq(&TokenType::Identifier)));

    assert_eq!(lexemes(&result), expected);
}

#[test]
fn strings() {
    let expected = vec!["\"if\"", "\"super\"", "\"h3110\""];
    let result = scan("\"if\" \"super\" \"h3110\"");

    assert_eq!(result.len(), expected.len() + 1);
    assert!(types(&result)
        .iter()
        .filter(|tt| *tt != &TokenType::Eof)
        .all(|t| t.eq(&TokenType::String)));

    assert_eq!(lexemes(&result), expected);
}

#[test]
fn not_terminated_string() {
    let result = scan("\"if");

    assert_eq!(result.len(), 2);
    assert_eq![result[0].get_token_type(), TokenType::Error];
    assert_eq![result[1].get_token_type(), TokenType::Eof];
}

#[test]
fn unexpected_character() {
    let result = scan("if$");

    assert_eq!(result.len(), 3);
    assert_eq![result[0].get_token_type(), TokenType::If];
    assert_eq![result[1].get_token_type(), TokenType::Error];
    assert_eq![result[2].get_token_type(), TokenType::Eof];
}

#[test]
fn whitespace() {
    let result = scan("if\t(\r\ntrue\n\n\t )\n");

    let expected = vec![
        TokenType::If,
        TokenType::LeftParen,
        TokenType::True,
        TokenType::RightParen,
        TokenType::Eof,
    ];
    assert_eq!(result.len(), expected.len());
    assert_eq!(types(&result), expected);
}

#[test]
fn error_tokens_carry_their_message() {
    let result = scan("@ \"open");
    assert_eq!(result.len(), 3);
    assert_eq!(result[0].get_lexeme_string(), "Unexpected character.");
    assert_eq!(result[1].get_lexeme_string(), "Unterminated string.");
}

#[test]
fn lines_are_counted() {
    let result = scan("a\nb // c\n\n\"x\ny\" d");
    let lines: Vec<u32> = result.iter().map(|t| t.get_line()).collect();
    assert_eq!(lines, vec![1, 2, 5, 5, 5]);
    assert_eq!(lexemes(&result), vec!["a", "b", "\"x\ny\"", "d"]);
}

#[test]
fn comments_are_skipped() {
    let result = scan("1 // two three\n/ 4 //");
    assert_eq!(
        types(&result),
        vec![TokenType::Number, TokenType::Slash, TokenType::Number, TokenType::Eof]
    );
}

#[test]
fn a_number_ends_before_a_dot_without_digit() {
    let result = scan("12.x 3.");
    assert_eq!(lexemes(&result), vec!["12", ".", "x", "3", "."]);
}

#[test]
fn keywords_must_match_whole() {
    let result = scan("f fo for fort t th thi this thisx");
    assert_eq!(
        types(&result),
        vec![
            TokenType::Identifier,
            TokenType::Identifier,
            TokenType::For,
            TokenType::Identifier,
            TokenType::Identifier,
            TokenType::Identifier,
            TokenType::Identifier,
            TokenType::This,
            TokenType::Identifier,
            TokenType::Eof,
        ]
    );
}

#[test]
fn the_scanner_hands_out_eof_once() {
    let mut scanner = Scanner::new(chars(" x "));
    assert_eq!(scanner.scan_token().unwrap().get_token_type(), TokenType::Identifier);
    assert_eq!(scanner.scan_token().unwrap().get_token_type(), TokenType::Eof);
    assert!(scanner.scan_token().is_none());
    assert!(scanner.scan_token().is_none());
}

#[test]
fn letters_and_digits() {
    assert!(is_alpha('a'));
    assert!(is_alpha('_'));
    assert!(is_alpha('é'));
    assert!(!is_alpha('1'));
    assert!(!is_alpha('-'));
    assert!(is_digit('0'));
    assert!(is_digit('9'));
    assert!(!is_digit('a'));
    assert!(!is_digit('٣'));
}

#[test]
fn tokens_keep_what_they_are_given() {
    let token = Token::new(TokenType::String, chars("\"a\""), 7);
    assert_eq!(token.get_token_type(), TokenType::String);
    assert_eq!(token.get_lexeme(), &chars("\"a\""));
    assert_eq!(token.get_line(), 7);
    assert_eq!(token.get_lexeme_string(), "\"a\"");
    let copy = token.clone();
    assert!(copy.same_lexeme(&token));
    assert_eq!(copy.get_line(), 7);
}
