use loxfront::lexer::{ErrorType, Lexer};
use loxfront::token::{Keyword, TokenType};

fn lex(source: &str) -> Result<Vec<TokenType<'_>>, Vec<(ErrorType, usize)>> {
    let mut lexer = Lexer::new(source);
    match lexer.lex() {
        Ok(tokens) => Ok(tokens.iter().map(|t| *t.kind()).collect()),
        Err(errors) => Err(errors.iter().map(|e| (e.kind, e.position.index())).collect()),
    }
}

#[test]
fn empty_source() {
    let source = "";

    let mut lexer = Lexer::new(source);

    let tokens = lexer.lex().unwrap();
    assert!(tokens.is_empty());
}

#[test]
fn unrecognized_character() {
    let source = "^";

    let mut lexer = Lexer::new(source);

    let errors = lexer.lex().unwrap_err();

    let error = &errors[0];
    assert_eq!(error.kind, ErrorType::InvalidCharacter);
}

#[test]
fn empty_string() {
    let source = "\"\"";

    let mut lexer = Lexer::new(source);

    let tokens = lexer.lex().unwrap();

    let token = &tokens[0];
    assert_eq!(*token.kind(), TokenType::String(""));
}

#[test]
fn hello_world() {
    let source = "
      fun say_hello_world( ) {
        var message = \"HELLO WORLD\";
        print message;
      }

      say_hello_world( )
    ";

    let mut lexer = Lexer::new(source);

    assert!(lexer.lex().is_ok());
}

#[test]
fn whitespace_and_comments_lex_to_nothing() {
    assert_eq!(lex("  \n\t  "), Ok(vec![]));
    assert_eq!(lex("// only a comment"), Ok(vec![]));
    assert_eq!(lex("  // first\n\n   // second\n  \t"), Ok(vec![]));
    assert_eq!(lex("\u{a0}\u{2003}\r\n"), Ok(vec![]));
}

#[test]
fn comment_ends_at_newline() {
    assert_eq!(lex("// note\n  1 // trailing\n+"), Ok(vec![TokenType::Number("1"), TokenType::Plus]));
}

#[test]
fn unterminated_string_is_one_error_at_its_quote() {
    assert_eq!(lex("\"abc"), Err(vec![(ErrorType::UnterminatedString, 0)]));
    assert_eq!(lex("1 + \"abc"), Err(vec![(ErrorType::UnterminatedString, 4)]));
}

#[test]
fn number_without_fraction_is_an_error_at_its_start() {
    assert_eq!(lex("123."), Err(vec![(ErrorType::NumberHasNoFractionalPart, 0)]));
    assert_eq!(lex("  7.x"), Err(vec![(ErrorType::NumberHasNoFractionalPart, 2)]));
}

#[test]
fn caret_is_an_invalid_character() {
    assert_eq!(lex("^"), Err(vec![(ErrorType::InvalidCharacter, 0)]));
}

#[test]
fn only_decimal_digits_start_a_number() {
    assert_eq!(lex("\u{663}"), Err(vec![(ErrorType::InvalidCharacter, 0)]));
    assert_eq!(lex("1\u{bd}"), Err(vec![(ErrorType::InvalidCharacter, 1)]));
    assert_eq!(lex("\u{b2}"), Err(vec![(ErrorType::InvalidCharacter, 0)]));
    assert_eq!(
        lex("1.\u{b2}"),
        Err(vec![(ErrorType::NumberHasNoFractionalPart, 0), (ErrorType::InvalidCharacter, 2)])
    );
}

#[test]
fn numeric_letters_continue_an_identifier() {
    assert_eq!(lex("x\u{b2} 9"), Ok(vec![TokenType::Identifier("x\u{b2}"), TokenType::Number("9")]));
}

#[test]
fn every_error_is_reported_in_order() {
    assert_eq!(
        lex("^ 1 # 2. \"x"),
        Err(vec![
            (ErrorType::InvalidCharacter, 0),
            (ErrorType::InvalidCharacter, 4),
            (ErrorType::NumberHasNoFractionalPart, 6),
            (ErrorType::UnterminatedString, 9),
        ])
    );
}

#[test]
fn numbers_keep_their_digits() {
    assert_eq!(lex("42 3.14 007"), Ok(vec![
        TokenType::Number("42"),
        TokenType::Number("3.14"),
        TokenType::Number("007"),
    ]));
}

#[test]
fn strings_hold_the_text_between_the_quotes() {
    assert_eq!(lex("\"hi there\" \"a\nb\""), Ok(vec![
        TokenType::String("hi there"),
        TokenType::String("a\nb"),
    ]));
    assert_eq!(lex("\"h\u{e9}\" x"), Ok(vec![TokenType::String("h\u{e9}"), TokenType::Identifier("x")]));
}

#[test]
fn keywords_and_identifiers() {
    assert_eq!(lex("and class else false fun for if nil or print return super this true var while"), Ok(vec![
        TokenType::Keyword(Keyword::And),
        TokenType::Keyword(Keyword::Class),
        TokenType::Keyword(Keyword::Else),
        TokenType::Keyword(Keyword::False),
        TokenType::Keyword(Keyword::Fun),
        TokenType::Keyword(Keyword::For),
        TokenType::Keyword(Keyword::If),
        TokenType::Keyword(Keyword::Nil),
        TokenType::Keyword(Keyword::Or),
        TokenType::Keyword(Keyword::Print),
        TokenType::Keyword(Keyword::Return),
        TokenType::Keyword(Keyword::Super),
        TokenType::Keyword(Keyword::This),
        TokenType::Keyword(Keyword::True),
        TokenType::Keyword(Keyword::Var),
        TokenType::Keyword(Keyword::While),
    ]));
    assert_eq!(lex("True orchid my_var x1 \u{e9}t\u{e9}"), Ok(vec![
        TokenType::Identifier("True"),
        TokenType::Identifier("orchid"),
        TokenType::Identifier("my_var"),
        TokenType::Identifier("x1"),
        TokenType::Identifier("\u{e9}t\u{e9}"),
    ]));
}

#[test]
fn symbols_and_two_character_operators() {
    assert_eq!(lex("(){},.;+-*/"), Ok(vec![
        TokenType::OpenParanthesis,
        TokenType::CloseParanthesis,
        TokenType::OpenBrace,
        TokenType::CloseBrace,
        TokenType::Comma,
        TokenType::Dot,
        TokenType::Semicolon,
        TokenType::Plus,
        TokenType::Minus,
        TokenType::Multiply,
        TokenType::Divide,
    ]));
    assert_eq!(lex("! != = == > >= < <="), Ok(vec![
        TokenType::Not,
        TokenType::NotEquals,
        TokenType::Assign,
        TokenType::Equals,
        TokenType::GreaterThan,
        TokenType::GreaterThanOrEquals,
        TokenType::LessThan,
        TokenType::LessThanOrEquals,
    ]));
    assert_eq!(lex("!==="), Ok(vec![TokenType::NotEquals, TokenType::Equals]));
}

#[test]
fn positions_count_lines_and_columns() {
    let mut lexer = Lexer::new("a\n  bc\n\u{e9}+");
    let tokens = lexer.lex().unwrap();
    let places: Vec<(usize, usize, usize)> = tokens
        .iter()
        .map(|t| (t.position().line(), t.position().column(), t.position().index()))
        .collect();
    assert_eq!(places, vec![(0, 0, 0), (1, 2, 4), (2, 0, 7), (2, 1, 8)]);
}

#[test]
fn error_messages() {
    assert_eq!(ErrorType::InvalidCharacter.message(), "invalid character");
    assert_eq!(ErrorType::UnterminatedString.message(), "unterminated string");
    assert_eq!(ErrorType::NumberHasNoFractionalPart.message(), "number has no fractional part");
    assert_eq!(ErrorType::FailedParsingNumber.message(), "failed parsing number");
}
