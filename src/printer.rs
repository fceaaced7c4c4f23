use crate::ast::Expression;
use crate::operator::{Additive, Comparison, Equality, Multiplicative, Precedance, Unary};
use crate::token::TokenType;
use vstd::prelude::*;

verus! {

/// How a token is shown: its spelling, or the text it carries.
pub open spec fn token_label<'a>(t: TokenType<'a>) -> Seq<char> {
    match t {
        TokenType::OpenParanthesis => "("@,
        TokenType::CloseParanthesis => ")"@,
        TokenType::OpenBrace => "{"@,
        TokenType::CloseBrace => "}"@,
        TokenType::Comma => ","@,
        TokenType::Dot => "."@,
        TokenType::Semicolon => ";"@,
        TokenType::Plus => "+"@,
        TokenType::Minus => "-"@,
        TokenType::Multiply => "*"@,
        TokenType::Divide => "/"@,
        TokenType::Assign => "="@,
        TokenType::Not => "!"@,
        TokenType::NotEquals => "!="@,
        TokenType::Equals => "=="@,
        TokenType::GreaterThan => ">"@,
        TokenType::GreaterThanOrEquals => ">="@,
        TokenType::LessThan => "<"@,
        TokenType::LessThanOrEquals => "<="@,
        TokenType::String(s) => s@,
        TokenType::Number(s) => s@,
        TokenType::Identifier(s) => s@,
        TokenType::Keyword(k) => k.spelling(),
    }
}

fn token_text<'a>(t: &TokenType<'a>) -> (r: &'a str)
    ensures
        r@ == token_label(*t),
{
    match t {
            TokenType::OpenParanthesis => "(",
            TokenType::CloseParanthesis => ")",
            TokenType::OpenBrace => "{",
            TokenType::CloseBrace => "}",
            TokenType::Comma => ",",
            TokenType::Dot => ".",
            TokenType::Semicolon => ";",
            TokenType::Plus => "+",
            TokenType::Minus => "-",
            TokenType::Multiply => "*",
            TokenType::Divide => "/",
            TokenType::Assign => "=",
            TokenType::Not => "!",
            TokenType::NotEquals => "!=",
            TokenType::Equals => "==",
            TokenType::GreaterThan => ">",
            TokenType::GreaterThanOrEquals => ">=",
            TokenType::LessThan => "<",
            TokenType::LessThanOrEquals => "<=",
            TokenType::String(s) => s,
            TokenType::Number(s) => s,
            TokenType::Identifier(s) => s,
            TokenType::Keyword(k) => k.word(),
    }
}

/// How an operator is shown: the name of its variant.
pub open spec fn operator_label(p: Precedance) -> Seq<char> {
    match p {
        Precedance::Unary(Unary::Minus) => "Minus"@,
        Precedance::Unary(Unary::Not) => "Not"@,
        Precedance::Multiplicative(Multiplicative::Multiply) => "Multiply"@,
        Precedance::Multiplicative(Multiplicative::Divide) => "Divide"@,
        Precedance::Additive(Additive::Plus) => "Plus"@,
        Precedance::Additive(Additive::Minus) => "Minus"@,
        Precedance::Comparison(Comparison::GreaterThan) => "GreaterThan"@,
        Precedance::Comparison(Comparison::GreaterThanOrEquals) => "GreaterThanOrEquals"@,
        Precedance::Comparison(Comparison::LessThan) => "LessThan"@,
        Precedance::Comparison(Comparison::LessThanOrEquals) => "LessThanOrEquals"@,
        Precedance::Equality(Equality::Equals) => "Equals"@,
        Precedance::Equality(Equality::NotEquals) => "NotEquals"@,
    }
}

fn operator_text(p: &Precedance) -> (r: &'static str)
    ensures
        r@ == operator_label(*p),
{
    match p {
        Precedance::Unary(Unary::Minus) => "Minus",
        Precedance::Unary(Unary::Not) => "Not",
        Precedance::Multiplicative(Multiplicative::Multiply) => "Multiply",
        Precedance::Multiplicative(Multiplicative::Divide) => "Divide",
        Precedance::Additive(Additive::Plus) => "Plus",
        Precedance::Additive(Additive::Minus) => "Minus",
        Precedance::Comparison(Comparison::GreaterThan) => "GreaterThan",
        Precedance::Comparison(Comparison::GreaterThanOrEquals) => "GreaterThanOrEquals",
        Precedance::Comparison(Comparison::LessThan) => "LessThan",
        Precedance::Comparison(Comparison::LessThanOrEquals) => "LessThanOrEquals",
        Precedance::Equality(Equality::Equals) => "Equals",
        Precedance::Equality(Equality::NotEquals) => "NotEquals",
    }
}

/// The lines that draw `e` as a tree below a parent whose lines start with
/// `prefix`; `last` tells whether `e` is the parent's last child.
pub open spec fn tree_lines<'a>(e: Expression<'a>, prefix: Seq<char>, last: bool) -> Seq<Seq<char>>
    decreases e,
{
    let connector = if last { "└── "@ } else { "├── "@ };
    let child_prefix = prefix + if last { "    "@ } else { "│   "@ };
    match e {
        Expression::Literal(t) => seq![prefix + connector + token_label(t.spec_kind())],
        Expression::UnaryExpression(u) => seq![prefix + connector + operator_label(u.operator.precedance)]
            + tree_lines(*u.operand, child_prefix, true),
        Expression::BinaryExpression(b) => seq![prefix + connector + operator_label(b.operator.precedance)]
            + tree_lines(*b.left_operand, child_prefix, false) + tree_lines(
            *b.right_operand,
            child_prefix,
            true,
        ),
    }
}

pub open spec fn string_views(v: Seq<String>) -> Seq<Seq<char>> {
    v.map_values(|s: String| s@)
}

/// Draws a syntax tree for people to read, one node per line.
pub struct Printer;

impl Printer {
    /// The lines of the drawing of `expression`: a `root` line, then the tree.
    pub fn render<'a>(expression: &Expression<'a>) -> (r: Vec<String>)
        ensures
            string_views(r@) == seq!["root"@] + tree_lines(*expression, Seq::empty(), true),
    {
        let mut lines: Vec<String> = Vec::new();
        lines.push(String::from_str("root"));
        Self::inner(expression, "", true, &mut lines);
        proof {
            let e: &str = "";
            assert(e@ == Seq::<char>::empty()) by {
                reveal_strlit("");
            }
        }
        lines
    }

    fn inner<'a>(expression: &Expression<'a>, prefix: &str, is_last_child: bool, lines: &mut Vec<String>)
        ensures
            string_views(final(lines)@) == string_views(old(lines)@) + tree_lines(
                *expression,
                prefix@,
                is_last_child,
            ),
        decreases expression,
    {
        let connector = if is_last_child {
            "└── "
        } else {
            "├── "
        };
        let ghost old_lines = lines@;
        let label = match expression {
            Expression::Literal(token) => token_text(token.kind()),
            Expression::UnaryExpression(unary) => operator_text(unary.operator.precedance()),
            Expression::BinaryExpression(binary) => operator_text(binary.operator.precedance()),
        };
        let mut line = String::from_str(prefix);
        line.append(connector);
        line.append(label);
        lines.push(line);
        assert(string_views(lines@) == string_views(old_lines).push(line@));
        let mut child_prefix = String::from_str(prefix);
        child_prefix.append(
            if is_last_child {
                "    "
            } else {
                "│   "
            },
        );
        match expression {
            Expression::Literal(_) => {},
            Expression::UnaryExpression(unary) => {
                Self::inner(&unary.operand, child_prefix.as_str(), true, lines);
            },
            Expression::BinaryExpression(binary) => {
                Self::inner(&binary.left_operand, child_prefix.as_str(), false, lines);
                Self::inner(&binary.right_operand, child_prefix.as_str(), true, lines);
            },
        }
    }
}

} // verus!
