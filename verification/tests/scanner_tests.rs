use rlox::{Scanner, TokenType};

fn scan_all(source: &str) -> Vec<(TokenType, String, usize)> {
    let text = source.to_string();
    let mut scanner = Scanner::new(&text);
    let mut out = Vec::new();
    loop {
        let token = scanner.scan_token();
        let kind = token.kind;
        out.push((token.kind, token.lexeme, token.line));
        if kind == TokenType::Eof {
            return out;
        }
    }
}

#[test]
fn whitespace_only_yields_single_eof() {
    let tokens = scan_all("  \t\r\n   \n");
    assert_eq!(tokens.len(), 1);
    assert_eq!(tokens[0].0, TokenType::Eof);
    assert_eq!(tokens[0].1, "");
}

#[test]
fn comments_only_yield_single_eof() {
    let tokens = scan_all("// a comment\n   // another // nested\n");
    assert_eq!(tokens.len(), 1);
    assert_eq!(tokens[0].0, TokenType::Eof);
}

#[test]
fn empty_source_yields_single_eof() {
    let tokens = scan_all("");
    assert_eq!(tokens.len(), 1);
    assert_eq!(tokens[0].0, TokenType::Eof);
    assert_eq!(tokens[0].2, 1);
}

#[test]
fn eof_is_idempotent() {
    let text = "+".to_string();
    let mut scanner = Scanner::new(&text);
    assert_eq!(scanner.scan_token().kind, TokenType::Plus);
    assert_eq!(scanner.scan_token().kind, TokenType::Eof);
    assert_eq!(scanner.scan_token().kind, TokenType::Eof);
    assert_eq!(scanner.scan_token().kind, TokenType::Eof);
}

#[test]
fn integer_literal_is_one_number_token() {
    let tokens = scan_all("42");
    assert_eq!(tokens.len(), 2);
    assert_eq!(tokens[0].0, TokenType::Number);
    assert_eq!(tokens[0].1, "42");
    assert_eq!(tokens[1].0, TokenType::Eof);
}

#[test]
fn decimal_literal_is_one_number_token_with_full_lexeme() {
    let tokens = scan_all("123.456");
    assert_eq!(tokens.len(), 2);
    assert_eq!(tokens[0].0, TokenType::Number);
    assert_eq!(tokens[0].1, "123.456");
}

#[test]
fn trailing_dot_is_not_consumed_by_number() {
    let tokens = scan_all("12. ");
    assert_eq!(tokens.len(), 3);
    assert_eq!(tokens[0].0, TokenType::Number);
    assert_eq!(tokens[0].1, "12");
    assert_eq!(tokens[1].0, TokenType::Dot);
}

#[test]
fn trailing_dot_at_end_of_buffer() {
    let tokens = scan_all("12.");
    assert_eq!(tokens.len(), 3);
    assert_eq!(tokens[0].0, TokenType::Number);
    assert_eq!(tokens[0].1, "12");
    assert_eq!(tokens[1].0, TokenType::Dot);
}

#[test]
fn lone_slash_at_end_of_buffer_is_divide() {
    let tokens = scan_all("1/");
    assert_eq!(tokens.len(), 3);
    assert_eq!(tokens[0].0, TokenType::Number);
    assert_eq!(tokens[1].0, TokenType::Slash);
}

#[test]
fn two_char_operators_never_split() {
    for (src, kind) in [
        ("!=", TokenType::BangEqual),
        ("==", TokenType::EqualEqual),
        ("<=", TokenType::LessEqual),
        (">=", TokenType::GreaterEqual),
    ] {
        let tokens = scan_all(src);
        assert_eq!(tokens.len(), 2);
        assert_eq!(tokens[0].0, kind);
        assert_eq!(tokens[0].1, src);
    }
}

#[test]
fn one_char_operators_when_no_equal_follows() {
    let tokens = scan_all("! = < >");
    let kinds: Vec<TokenType> = tokens.iter().map(|t| t.0).collect();
    assert_eq!(
        kinds,
        vec![
            TokenType::Bang,
            TokenType::Equal,
            TokenType::Less,
            TokenType::Greater,
            TokenType::Eof
        ]
    );
}

#[test]
fn punctuation_tokens() {
    let tokens = scan_all("(){};,.-+/*");
    let kinds: Vec<TokenType> = tokens.iter().map(|t| t.0).collect();
    assert_eq!(
        kinds,
        vec![
            TokenType::LeftParen,
            TokenType::RightParen,
            TokenType::LeftBrace,
            TokenType::RightBrace,
            TokenType::Semicolon,
            TokenType::Comma,
            TokenType::Dot,
            TokenType::Minus,
            TokenType::Plus,
            TokenType::Slash,
            TokenType::Star,
            TokenType::Eof
        ]
    );
}

#[test]
fn keywords_are_recognised() {
    let tokens = scan_all("and class else false for fun if nil or print return super this true var while");
    let kinds: Vec<TokenType> = tokens.iter().map(|t| t.0).collect();
    assert_eq!(
        kinds,
        vec![
            TokenType::And,
            TokenType::Class,
            TokenType::Else,
            TokenType::False,
            TokenType::For,
            TokenType::Fun,
            TokenType::If,
            TokenType::Nil,
            TokenType::Or,
            TokenType::Print,
            TokenType::Return,
            TokenType::Super,
            TokenType::This,
            TokenType::True,
            TokenType::Var,
            TokenType::While,
            TokenType::Eof
        ]
    );
}

#[test]
fn near_keyword_is_identifier() {
    let tokens = scan_all("andy orchid classy");
    assert_eq!(tokens[0].0, TokenType::Identifier);
    assert_eq!(tokens[0].1, "andy");
    assert_eq!(tokens[1].0, TokenType::Identifier);
    assert_eq!(tokens[2].0, TokenType::Identifier);
}

#[test]
fn string_literal_keeps_quotes_in_lexeme() {
    let tokens = scan_all("\"hi there\"");
    assert_eq!(tokens[0].0, TokenType::String);
    assert_eq!(tokens[0].1, "\"hi there\"");
}

#[test]
fn multiline_string_counts_lines() {
    let tokens = scan_all("\"a\nb\" +");
    assert_eq!(tokens[0].0, TokenType::String);
    assert_eq!(tokens[0].2, 2);
    assert_eq!(tokens[1].0, TokenType::Plus);
    assert_eq!(tokens[1].2, 2);
}

#[test]
fn unterminated_string_yields_single_error_token() {
    let tokens = scan_all("\"abc");
    assert_eq!(tokens.len(), 2);
    assert_eq!(tokens[0].0, TokenType::Error);
    assert_eq!(tokens[0].1, "Unterminated string.");
    assert_eq!(tokens[0].2, 1);
    assert_eq!(tokens[1].0, TokenType::Eof);
}

#[test]
fn unterminated_string_line_reflects_embedded_newlines() {
    let tokens = scan_all("\"a\nbc");
    assert_eq!(tokens[0].0, TokenType::Error);
    assert_eq!(tokens[0].1, "Unterminated string.");
    assert_eq!(tokens[0].2, 2);
}

#[test]
fn unexpected_character_is_error_token() {
    let tokens = scan_all("#");
    assert_eq!(tokens[0].0, TokenType::Error);
    assert_eq!(tokens[0].1, "Unexpected character.");
}

#[test]
fn newline_increments_line_counter() {
    let tokens = scan_all("+\n-\n*");
    assert_eq!(tokens[0].2, 1);
    assert_eq!(tokens[1].2, 2);
    assert_eq!(tokens[2].2, 3);
}

#[test]
fn slash_divide_versus_comment() {
    let tokens = scan_all("1 / 2 // rest ignored\n3");
    let kinds: Vec<TokenType> = tokens.iter().map(|t| t.0).collect();
    assert_eq!(
        kinds,
        vec![
            TokenType::Number,
            TokenType::Slash,
            TokenType::Number,
            TokenType::Number,
            TokenType::Eof
        ]
    );
    assert_eq!(tokens[3].2, 2);
}

#[test]
fn token_offsets_and_lengths() {
    let text = "ab 12".to_string();
    let mut scanner = Scanner::new(&text);
    let t1 = scanner.scan_token();
    assert_eq!((t1.start, t1.length), (0, 2));
    let t2 = scanner.scan_token();
    assert_eq!((t2.start, t2.length), (3, 2));
}
