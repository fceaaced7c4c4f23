use crate::ast::{BinaryExpression, Expression, UnaryExpression};
use crate::operator::{tier_operator, Operator, Precedance, MULTIPLICATIVE, UNARY};
use crate::source::Position;
use crate::token::{is_literal_type, Token, TokenType};
use vstd::prelude::*;

verus! {

/// Where a parse error is reported when no token of its own marks it: at the
/// token at `i`, or at the last token once the input has run out.
pub open spec fn position_near<'a>(tokens: Seq<Token<'a>>, i: nat) -> Position {
    if i < tokens.len() {
        tokens[i as int].spec_position()
    } else {
        tokens.last().spec_position()
    }
}

pub open spec fn parse_failure<'a>(position: Position, kind: ErrorType) -> Result<(Expression<'a>, nat), Error> {
    Err(Error { position, kind })
}

/// The grammar, tier by tier. `parse_level(tokens, level, i)` reads one
/// expression of tier `level` starting at token `i`, and gives the tree with
/// the index of the first token after it, or the first syntax error.
/// Tiers 0 to 3 are the binary tiers of `tier_operator`, tier 4 the prefix
/// operators, tier 5 a parenthesised expression or a literal.
pub open spec fn parse_level<'a>(tokens: Seq<Token<'a>>, level: nat, i: nat) -> Result<(Expression<'a>, nat), Error>
    decreases tokens.len() - i, 6 - level,
{
    if i > tokens.len() || level > 5 {
        parse_failure(position_near(tokens, i), ErrorType::ExpectedLiteral)
    } else if level < UNARY {
        match parse_level(tokens, level + 1, i) {
            Err(e) => Err(e),
            Ok((left, k)) => if i < k <= tokens.len() {
                fold_level(tokens, level, k, left)
            } else {
                parse_failure(position_near(tokens, i), ErrorType::ExpectedLiteral)
            },
        }
    } else if level == UNARY {
        if i < tokens.len() && tier_operator(level, tokens[i as int].spec_kind()) is Some {
            let operator = Operator {
                precedance: tier_operator(level, tokens[i as int].spec_kind())->0,
                token: tokens[i as int],
            };
            match parse_level(tokens, level, i + 1) {
                Err(e) => Err(e),
                Ok((operand, k)) => Ok(
                    (
                        Expression::UnaryExpression(
                            UnaryExpression { operator, operand: Box::new(operand) },
                        ),
                        k,
                    ),
                ),
            }
        } else {
            parse_level(tokens, level + 1, i)
        }
    } else {
        if i < tokens.len() && tokens[i as int].spec_kind() is OpenParanthesis {
            match parse_level(tokens, 0, i + 1) {
                Err(e) => Err(e),
                Ok((inner, k)) => if k < tokens.len() && tokens[k as int].spec_kind() is CloseParanthesis {
                    Ok((inner, k + 1))
                } else {
                    parse_failure(tokens[i as int].spec_position(), ErrorType::ExpectedCloseParanthesis)
                },
            }
        } else if i < tokens.len() && is_literal_type(tokens[i as int].spec_kind()) {
            Ok((Expression::Literal(tokens[i as int]), i + 1))
        } else {
            parse_failure(position_near(tokens, i), ErrorType::ExpectedLiteral)
        }
    }
}

/// The left fold of a binary tier: `left` has been read and ends before token
/// `i`; while token `i` is an operator of the tier, read an operand of the
/// next tier and combine.
pub open spec fn fold_level<'a>(tokens: Seq<Token<'a>>, level: nat, i: nat, left: Expression<'a>) -> Result<(Expression<'a>, nat), Error>
    decreases tokens.len() - i, 0nat,
{
    if i < tokens.len() && level < UNARY && tier_operator(level, tokens[i as int].spec_kind()) is Some {
        let operator = Operator {
            precedance: tier_operator(level, tokens[i as int].spec_kind())->0,
            token: tokens[i as int],
        };
        match parse_level(tokens, level + 1, i + 1) {
            Err(e) => Err(e),
            Ok((right, k)) => if i < k <= tokens.len() {
                fold_level(
                    tokens,
                    level,
                    k,
                    Expression::BinaryExpression(
                        BinaryExpression {
                            left_operand: Box::new(left),
                            operator,
                            right_operand: Box::new(right),
                        },
                    ),
                )
            } else {
                parse_failure(position_near(tokens, i), ErrorType::ExpectedLiteral)
            },
        }
    } else {
        Ok((left, i))
    }
}

/// A lone literal token parses to a literal node that holds that very token.
pub proof fn lemma_lone_literal_parses_to_itself<'a>(tokens: Seq<Token<'a>>)
    requires
        tokens.len() == 1,
        is_literal_type(tokens[0].spec_kind()),
    ensures
        parse_level(tokens, 0, 0) == Ok::<(Expression<'a>, nat), Error>((Expression::Literal(tokens[0]), 1nat)),
{
    let lit = Expression::Literal(tokens[0]);
    let done = Ok::<(Expression<'a>, nat), Error>((lit, 1nat));
    assert(tier_operator(UNARY as nat, tokens[0].spec_kind()) is None);
    assert(parse_level(tokens, 5, 0) == done);
    assert(parse_level(tokens, 4, 0) == done);
    assert(fold_level(tokens, 3, 1, lit) == done);
    assert(parse_level(tokens, 3, 0) == done);
    assert(fold_level(tokens, 2, 1, lit) == done);
    assert(parse_level(tokens, 2, 0) == done);
    assert(fold_level(tokens, 1, 1, lit) == done);
    assert(parse_level(tokens, 1, 0) == done);
    assert(fold_level(tokens, 0, 1, lit) == done);
}

/// Where a syntax error was found, and what it is.
#[derive(Debug, Clone, Copy, PartialEq, Eq, Structural)]
pub struct Error {
    pub position: Position,
    pub kind: ErrorType,
}

/// The kinds of syntax error.
#[derive(Debug, Clone, Copy, PartialEq, Eq, Structural)]
pub enum ErrorType {
    InvalidUnaryOperator,
    InvalidBinaryOperator,
    ExpectedCloseParanthesis,
    ExpectedLiteral,
}

impl ErrorType {
    /// A description for people.
    pub fn message(&self) -> (r: &'static str)
        ensures
            r@ == match *self {
                ErrorType::InvalidUnaryOperator => "invalid unary operator"@,
                ErrorType::InvalidBinaryOperator => "invalid binary operator"@,
                ErrorType::ExpectedCloseParanthesis => "expected a close paranthesis"@,
                ErrorType::ExpectedLiteral => "expected a literal"@,
            },
    {
        match self {
            ErrorType::InvalidUnaryOperator => "invalid unary operator",
            ErrorType::InvalidBinaryOperator => "invalid binary operator",
            ErrorType::ExpectedCloseParanthesis => "expected a close paranthesis",
            ErrorType::ExpectedLiteral => "expected a literal",
        }
    }
}

/// The outcome of an exec parsing step, as the grammar model states it: the
/// tree and where reading stopped, or the error.
pub open spec fn parsed_as<'a>(
    r: Result<Box<Expression<'a>>, Error>,
    end: nat,
    expected: Result<(Expression<'a>, nat), Error>,
) -> bool {
    match expected {
        Ok((e, k)) => r matches Ok(b) && *b == e && end == k,
        Err(err) => r == Err::<Box<Expression<'a>>, Error>(err),
    }
}

/// A predictive recursive-descent parser over a non-empty token sequence.
/// It stops at the first syntax error.
pub struct Parser<'a> {
    tokens: Vec<Token<'a>>,
    cursor: usize,
}

impl<'a> Parser<'a> {
    /// The tokens being parsed.
    pub closed spec fn tokens(&self) -> Seq<Token<'a>> {
        self.tokens@
    }

    /// The index of the next token to read.
    pub closed spec fn cursor(&self) -> nat {
        self.cursor as nat
    }

    pub closed spec fn wf(&self) -> bool {
        &&& self.tokens@.len() > 0
        &&& self.cursor <= self.tokens@.len()
    }

    /// A parser over `tokens`; `None` when there are none.
    pub fn new(tokens: Vec<Token<'a>>) -> (r: Option<Parser<'a>>)
        ensures
            r is None <==> tokens@.len() == 0,
            r matches Some(p) ==> p.wf() && p.tokens() == tokens@ && p.cursor() == 0,
    {
        if tokens.len() == 0 {
            return None;
        }
        Some(Parser { tokens, cursor: 0 })
    }

    /// Parses one expression from the current token on: its tree, or the
    /// first syntax error.
    pub fn parse(&mut self) -> (r: Result<Box<Expression<'a>>, Error>)
        requires
            old(self).wf(),
        ensures
            final(self).wf(),
            final(self).tokens() == old(self).tokens(),
            parsed_as(r, final(self).cursor(), parse_level(old(self).tokens(), 0, old(self).cursor())),
    {
        self.parse_expression()
    }

    fn parse_expression(&mut self) -> (r: Result<Box<Expression<'a>>, Error>)
        requires
            old(self).wf(),
        ensures
            final(self).wf(),
            final(self).tokens() == old(self).tokens(),
            parsed_as(r, final(self).cursor(), parse_level(old(self).tokens(), 0, old(self).cursor())),
            r is Ok ==> final(self).cursor() > old(self).cursor(),
        decreases self.tokens@.len() - self.cursor, 6nat, 1nat,
    {
        self.parse_binary(0)
    }

    fn position_near(&self) -> (r: Position)
        requires
            self.wf(),
        ensures
            r == position_near(self.tokens(), self.cursor()),
    {
        if self.cursor < self.tokens.len() {
            *self.tokens[self.cursor].position()
        } else {
            *self.tokens[self.tokens.len() - 1].position()
        }
    }

    /// Consumes the next token if it is an operator of tier `level`.
    fn next_if_operator(&mut self, level: usize) -> (r: Option<Operator<'a>>)
        requires
            old(self).wf(),
        ensures
            final(self).wf(),
            final(self).tokens() == old(self).tokens(),
            ({
                let t = old(self).tokens();
                let i = old(self).cursor();
                if i < t.len() && tier_operator(level as nat, t[i as int].spec_kind()) is Some {
                    &&& r == Some(
                        Operator {
                            precedance: tier_operator(level as nat, t[i as int].spec_kind())->0,
                            token: t[i as int],
                        },
                    )
                    &&& final(self).cursor() == i + 1
                } else {
                    r is None && final(self).cursor() == i
                }
            }),
    {
        if self.cursor >= self.tokens.len() {
            return None;
        }
        let token = self.tokens[self.cursor];
        match Precedance::of_level(level, token.kind()) {
            Some(precedance) => {
                self.cursor = self.cursor + 1;
                Some(Operator { precedance, token })
            },
            None => None,
        }
    }

    /// One of the binary tiers: an operand of the next tier, then a left fold
    /// over the operators of this tier.
    fn parse_binary(&mut self, level: usize) -> (r: Result<Box<Expression<'a>>, Error>)
        requires
            old(self).wf(),
            level < UNARY,
        ensures
            final(self).wf(),
            final(self).tokens() == old(self).tokens(),
            parsed_as(r, final(self).cursor(), parse_level(old(self).tokens(), level as nat, old(self).cursor())),
            r is Ok ==> final(self).cursor() > old(self).cursor(),
        decreases self.tokens@.len() - self.cursor, 5 - level, 0nat,
    {
        let ghost t = self.tokens();
        let ghost i = self.cursor();
        let first = if level < MULTIPLICATIVE {
            self.parse_binary(level + 1)
        } else {
            self.parse_unary()
        };
        let mut left = match first {
            Ok(e) => e,
            Err(e) => return Err(e),
        };
        let ghost k = self.cursor();
        let ghost left0 = *left;
        loop
            invariant
                self.wf(),
                self.tokens() == t,
                t == old(self).tokens(),
                i == old(self).cursor(),
                level < UNARY,
                i < k <= self.cursor(),
                parse_level(t, level as nat, i) == fold_level(t, level as nat, k, left0),
                fold_level(t, level as nat, self.cursor(), *left) == fold_level(t, level as nat, k, left0),
            ensures
                self.wf(),
                self.tokens() == t,
                i < self.cursor(),
                parse_level(t, level as nat, i) == Ok::<(Expression<'a>, nat), Error>((*left, self.cursor())),
            decreases t.len() - self.cursor(),
        {
            let operator = match self.next_if_operator(level) {
                Some(o) => o,
                None => break,
            };
            let right = if level < MULTIPLICATIVE {
                self.parse_binary(level + 1)
            } else {
                self.parse_unary()
            };
            let right = match right {
                Ok(e) => e,
                Err(e) => return Err(e),
            };
            left = Box::new(
                Expression::BinaryExpression(
                    BinaryExpression { left_operand: left, operator, right_operand: right },
                ),
            );
        }
        Ok(left)
    }

    /// A prefix operator applied to a unary expression, or a primary one.
    fn parse_unary(&mut self) -> (r: Result<Box<Expression<'a>>, Error>)
        requires
            old(self).wf(),
        ensures
            final(self).wf(),
            final(self).tokens() == old(self).tokens(),
            parsed_as(r, final(self).cursor(), parse_level(old(self).tokens(), UNARY as nat, old(self).cursor())),
            r is Ok ==> final(self).cursor() > old(self).cursor(),
        decreases self.tokens@.len() - self.cursor, 1nat, 0nat,
    {
        match self.next_if_operator(UNARY) {
            Some(operator) => {
                let operand = match self.parse_unary() {
                    Ok(e) => e,
                    Err(e) => return Err(e),
                };
                Ok(Box::new(Expression::UnaryExpression(UnaryExpression { operator, operand })))
            },
            None => self.parse_paranthesized(),
        }
    }

    /// A parenthesised expression, or else a literal.
    fn parse_paranthesized(&mut self) -> (r: Result<Box<Expression<'a>>, Error>)
        requires
            old(self).wf(),
        ensures
            final(self).wf(),
            final(self).tokens() == old(self).tokens(),
            parsed_as(r, final(self).cursor(), parse_level(old(self).tokens(), 5, old(self).cursor())),
            r is Ok ==> final(self).cursor() > old(self).cursor(),
        decreases self.tokens@.len() - self.cursor, 0nat, 0nat,
    {
        if self.cursor < self.tokens.len() {
            let open_paranthesis = self.tokens[self.cursor];
            if let TokenType::OpenParanthesis = open_paranthesis.kind() {
                self.cursor = self.cursor + 1;
                let inner = match self.parse_expression() {
                    Ok(e) => e,
                    Err(e) => return Err(e),
                };
                let closed = self.cursor < self.tokens.len() && match self.tokens[self.cursor].kind() {
                    TokenType::CloseParanthesis => true,
                    _ => false,
                };
                if !closed {
                    return Err(
                        Error {
                            position: *open_paranthesis.position(),
                            kind: ErrorType::ExpectedCloseParanthesis,
                        },
                    );
                }
                self.cursor = self.cursor + 1;
                return Ok(inner);
            }
        }
        self.parse_literal()
    }

    /// A literal token.
    fn parse_literal(&mut self) -> (r: Result<Box<Expression<'a>>, Error>)
        requires
            old(self).wf(),
            old(self).cursor() < old(self).tokens().len() ==> !(old(self).tokens()[old(self).cursor() as int].spec_kind() is OpenParanthesis),
        ensures
            final(self).wf(),
            final(self).tokens() == old(self).tokens(),
            parsed_as(r, final(self).cursor(), parse_level(old(self).tokens(), 5, old(self).cursor())),
            r is Ok ==> final(self).cursor() > old(self).cursor(),
            r is Err ==> final(self).cursor() == old(self).cursor(),
    {
        if self.cursor < self.tokens.len() && self.tokens[self.cursor].is_literal() {
            let token = self.tokens[self.cursor];
            self.cursor = self.cursor + 1;
            return Ok(Box::new(Expression::Literal(token)));
        }
        Err(Error { position: self.position_near(), kind: ErrorType::ExpectedLiteral })
    }
}

} // verus!
