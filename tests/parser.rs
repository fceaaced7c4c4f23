use loxfront::ast::Expression;
use loxfront::lexer::Lexer;
use loxfront::operator::{Additive, Comparison, Equality, Multiplicative, Precedance, Unary};
use loxfront::parser::{Error, ErrorType, Parser};
use loxfront::printer::Printer;
use loxfront::token::{Token, TokenType};

fn tokens(source: &str) -> Vec<Token<'_>> {
    Lexer::new(source).lex().unwrap()
}

fn parse(source: &str) -> Result<Box<Expression<'_>>, Error> {
    Parser::new(tokens(source)).unwrap().parse()
}

fn name(p: &Precedance) -> &'static str {
    match p {
        Precedance::Unary(Unary::Minus) => "Negate",
        Precedance::Unary(Unary::Not) => "Not",
        Precedance::Multiplicative(Multiplicative::Multiply) => "Multiply",
        Precedance::Multiplicative(Multiplicative::Divide) => "Divide",
        Precedance::Additive(Additive::Plus) => "Plus",
        Precedance::Additive(Additive::Minus) => "Minus",
        Precedance::Comparison(Comparison::GreaterThan) => "GreaterThan",
        Precedance::Comparison(Comparison::GreaterThanOrEquals) => "GreaterThanOrEquals",
        Precedance::Comparison(Comparison::LessThan) => "LessThan",
        Precedance::Comparison(Comparison::LessThanOrEquals) => "LessThanOrEquals",
        Precedance::Equality(Equality::Equals) => "Equals",
        Precedance::Equality(Equality::NotEquals) => "NotEquals",
    }
}

fn show(e: &Expression) -> String {
    match e {
        Expression::Literal(t) => match t.kind() {
            TokenType::Number(s) | TokenType::String(s) | TokenType::Identifier(s) => s.to_string(),
            other => format!("{:?}", other),
        },
        Expression::UnaryExpression(u) => format!("{}({})", name(u.operator.precedance()), show(&u.operand)),
        Expression::BinaryExpression(b) => format!(
            "{}({}, {})",
            name(b.operator.precedance()),
            show(&b.left_operand),
            show(&b.right_operand)
        ),
    }
}

#[test]
fn test() {
    let source = "!(-1 == 2 + 3 * 4 + 5)";

    let mut lexer = Lexer::new(source);
    let tokens = lexer.lex().unwrap();

    let mut parser = Parser::new(tokens).unwrap();
    let expression = parser.parse().unwrap();

    for line in Printer::render(&expression) {
        println!("{}", line);
    }
}

#[test]
fn mixed_expression_tree() {
    let e = parse("!(-1 == 2 + 3 * 4 + 5)").unwrap();
    assert_eq!(show(&e), "Not(Equals(Negate(1), Plus(Plus(2, Multiply(3, 4)), 5)))");
}

#[test]
fn literal_wraps_the_token_unchanged() {
    for source in ["42", "\"hi\"", "true", "false", "nil", "name"] {
        let lexed = tokens(source)[0];
        let e = parse(source).unwrap();
        match *e {
            Expression::Literal(t) => {
                assert_eq!(*t.kind(), *lexed.kind());
                assert_eq!(*t.position(), *lexed.position());
            },
            _ => panic!("not a literal: {}", source),
        }
    }
    assert_eq!(show(&parse("\"hi\"").unwrap()), "hi");
}

#[test]
fn multiplication_binds_tighter_than_addition() {
    assert_eq!(show(&parse("1 + 2 * 3").unwrap()), "Plus(1, Multiply(2, 3))");
    assert_eq!(show(&parse("1 * 2 + 3").unwrap()), "Plus(Multiply(1, 2), 3)");
}

#[test]
fn subtraction_nests_to_the_left() {
    assert_eq!(show(&parse("1 - 2 - 3").unwrap()), "Minus(Minus(1, 2), 3)");
    assert_eq!(show(&parse("8 / 4 / 2").unwrap()), "Divide(Divide(8, 4), 2)");
}

#[test]
fn prefix_operators_nest_to_the_right() {
    assert_eq!(show(&parse("!!true").unwrap()), "Not(Not(Keyword(True)))");
    assert_eq!(show(&parse("-!-x").unwrap()), "Negate(Not(Negate(x)))");
}

#[test]
fn parentheses_override_precedence() {
    assert_eq!(show(&parse("(1 + 2) * 3").unwrap()), "Multiply(Plus(1, 2), 3)");
    assert_eq!(show(&parse("((1))").unwrap()), "1");
}

#[test]
fn tiers_from_loosest_to_tightest() {
    assert_eq!(
        show(&parse("a == b < c + d * -e").unwrap()),
        "Equals(a, LessThan(b, Plus(c, Multiply(d, Negate(e)))))"
    );
    assert_eq!(
        show(&parse("1 >= 2 != 3 <= 4").unwrap()),
        "NotEquals(GreaterThanOrEquals(1, 2), LessThanOrEquals(3, 4))"
    );
}

#[test]
fn unclosed_parenthesis_is_reported_at_the_opening_one() {
    let error = parse("(1 + 2").unwrap_err();
    assert_eq!(error.kind, ErrorType::ExpectedCloseParanthesis);
    assert_eq!(error.position.index(), 0);
    let error = parse("3 * (1 + (2)").unwrap_err();
    assert_eq!(error.kind, ErrorType::ExpectedCloseParanthesis);
    assert_eq!(error.position.index(), 4);
}

#[test]
fn missing_operand_is_an_expected_literal() {
    let error = parse("1 + )").unwrap_err();
    assert_eq!(error.kind, ErrorType::ExpectedLiteral);
    assert_eq!(error.position.index(), 4);
    let error = parse("1 +").unwrap_err();
    assert_eq!(error.kind, ErrorType::ExpectedLiteral);
    assert_eq!(error.position.index(), 2);
    let error = parse("class").unwrap_err();
    assert_eq!(error.kind, ErrorType::ExpectedLiteral);
}

#[test]
fn empty_tokens_give_no_parser() {
    assert!(Parser::new(Vec::new()).is_none());
    assert!(Parser::new(tokens("1")).is_some());
}

#[test]
fn parse_stops_after_one_expression() {
    let mut parser = Parser::new(tokens("1 2")).unwrap();
    assert_eq!(show(&parser.parse().unwrap()), "1");
    assert_eq!(show(&parser.parse().unwrap()), "2");
}

#[test]
fn rendered_tree() {
    let e = parse("-1 + 2").unwrap();
    assert_eq!(
        Printer::render(&e),
        vec![
            "root".to_string(),
            "\u{2514}\u{2500}\u{2500} Plus".to_string(),
            "    \u{251c}\u{2500}\u{2500} Minus".to_string(),
            "    \u{2502}   \u{2514}\u{2500}\u{2500} 1".to_string(),
            "    \u{2514}\u{2500}\u{2500} 2".to_string(),
        ]
    );
}

#[test]
fn parse_error_messages() {
    assert_eq!(ErrorType::ExpectedCloseParanthesis.message(), "expected a close paranthesis");
    assert_eq!(ErrorType::ExpectedLiteral.message(), "expected a literal");
    assert_eq!(ErrorType::InvalidUnaryOperator.message(), "invalid unary operator");
    assert_eq!(ErrorType::InvalidBinaryOperator.message(), "invalid binary operator");
}
