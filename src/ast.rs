use crate::operator::Operator;
use crate::token::Token;
use vstd::prelude::*;

verus! {

/// A node of the syntax tree. Each node owns its children.
#[derive(Debug)]
pub enum Expression<'a> {
    Literal(Token<'a>),
    UnaryExpression(UnaryExpression<'a>),
    BinaryExpression(BinaryExpression<'a>),
}

/// A prefix operator applied to one operand.
#[derive(Debug)]
pub struct UnaryExpression<'a> {
    pub operator: Operator<'a>,
    pub operand: Box<Expression<'a>>,
}

/// A binary operator applied to two operands.
#[derive(Debug)]
pub struct BinaryExpression<'a> {
    pub left_operand: Box<Expression<'a>>,
    pub operator: Operator<'a>,
    pub right_operand: Box<Expression<'a>>,
}

} // verus!
