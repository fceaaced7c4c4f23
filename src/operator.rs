use crate::token::{Token, TokenType};
use vstd::prelude::*;

verus! {

/// The operators of the unary tier.
#[derive(Debug, Clone, Copy, PartialEq, Eq, Structural)]
pub enum Unary {
    Minus,
    Not,
}

impl Unary {
    /// The operator of this tier that a token of type `t` stands for, if any.
    pub open spec fn spec_from(t: TokenType) -> Option<Unary> {
        match t {
            TokenType::Minus => Some(Unary::Minus),
            TokenType::Not => Some(Unary::Not),
            _ => None,
        }
    }

    pub fn try_from(token_type: &TokenType) -> (r: Option<Unary>)
        ensures
            r == Unary::spec_from(*token_type),
    {
        match token_type {
            TokenType::Minus => Some(Unary::Minus),
            TokenType::Not => Some(Unary::Not),
            _ => None,
        }
    }
}

/// The operators of the multiplicative tier.
#[derive(Debug, Clone, Copy, PartialEq, Eq, Structural)]
pub enum Multiplicative {
    Multiply,
    Divide,
}

impl Multiplicative {
    /// The operator of this tier that a token of type `t` stands for, if any.
    pub open spec fn spec_from(t: TokenType) -> Option<Multiplicative> {
        match t {
            TokenType::Multiply => Some(Multiplicative::Multiply),
            TokenType::Divide => Some(Multiplicative::Divide),
            _ => None,
        }
    }

    pub fn try_from(token_type: &TokenType) -> (r: Option<Multiplicative>)
        ensures
            r == Multiplicative::spec_from(*token_type),
    {
        match token_type {
            TokenType::Multiply => Some(Multiplicative::Multiply),
            TokenType::Divide => Some(Multiplicative::Divide),
            _ => None,
        }
    }
}

/// The operators of the additive tier.
#[derive(Debug, Clone, Copy, PartialEq, Eq, Structural)]
pub enum Additive {
    Plus,
    Minus,
}

impl Additive {
    /// The operator of this tier that a token of type `t` stands for, if any.
    pub open spec fn spec_from(t: TokenType) -> Option<Additive> {
        match t {
            TokenType::Plus => Some(Additive::Plus),
            TokenType::Minus => Some(Additive::Minus),
            _ => None,
        }
    }

    pub fn try_from(token_type: &TokenType) -> (r: Option<Additive>)
        ensures
            r == Additive::spec_from(*token_type),
    {
        match token_type {
            TokenType::Plus => Some(Additive::Plus),
            TokenType::Minus => Some(Additive::Minus),
            _ => None,
        }
    }
}

/// The operators of the comparison tier.
#[derive(Debug, Clone, Copy, PartialEq, Eq, Structural)]
pub enum Comparison {
    GreaterThan,
    GreaterThanOrEquals,
    LessThan,
    LessThanOrEquals,
}

impl Comparison {
    /// The operator of this tier that a token of type `t` stands for, if any.
    pub open spec fn spec_from(t: TokenType) -> Option<Comparison> {
        match t {
            TokenType::GreaterThan => Some(Comparison::GreaterThan),
            TokenType::GreaterThanOrEquals => Some(Comparison::GreaterThanOrEquals),
            TokenType::LessThan => Some(Comparison::LessThan),
            TokenType::LessThanOrEquals => Some(Comparison::LessThanOrEquals),
            _ => None,
        }
    }

    pub fn try_from(token_type: &TokenType) -> (r: Option<Comparison>)
        ensures
            r == Comparison::spec_from(*token_type),
    {
        match token_type {
            TokenType::GreaterThan => Some(Comparison::GreaterThan),
            TokenType::GreaterThanOrEquals => Some(Comparison::GreaterThanOrEquals),
            TokenType::LessThan => Some(Comparison::LessThan),
            TokenType::LessThanOrEquals => Some(Comparison::LessThanOrEquals),
            _ => None,
        }
    }
}

/// The operators of the equality tier.
#[derive(Debug, Clone, Copy, PartialEq, Eq, Structural)]
pub enum Equality {
    Equals,
    NotEquals,
}

impl Equality {
    /// The operator of this tier that a token of type `t` stands for, if any.
    pub open spec fn spec_from(t: TokenType) -> Option<Equality> {
        match t {
            TokenType::Equals => Some(Equality::Equals),
            TokenType::NotEquals => Some(Equality::NotEquals),
            _ => None,
        }
    }

    pub fn try_from(token_type: &TokenType) -> (r: Option<Equality>)
        ensures
            r == Equality::spec_from(*token_type),
    {
        match token_type {
            TokenType::Equals => Some(Equality::Equals),
            TokenType::NotEquals => Some(Equality::NotEquals),
            _ => None,
        }
    }
}

/// An operator together with the tier of precedence it belongs to.
#[derive(Debug, Clone, Copy, PartialEq, Eq, Structural)]
pub enum Precedance {
    Unary(Unary),
    Multiplicative(Multiplicative),
    Additive(Additive),
    Comparison(Comparison),
    Equality(Equality),
}

// The tiers of binding strength, from the loosest to the tightest. Each
// binary tier folds to the left over operands of the next tier; the unary
// tier nests to the right.
pub const EQUALITY: usize = 0;
pub const COMPARISON: usize = 1;
pub const ADDITIVE: usize = 2;
pub const MULTIPLICATIVE: usize = 3;
pub const UNARY: usize = 4;

/// The operator that a token of type `t` stands for at tier `level`, if any.
pub open spec fn tier_operator(level: nat, t: TokenType) -> Option<Precedance> {
    if level == EQUALITY {
        match Equality::spec_from(t) {
            Some(o) => Some(Precedance::Equality(o)),
            None => None,
        }
    } else if level == COMPARISON {
        match Comparison::spec_from(t) {
            Some(o) => Some(Precedance::Comparison(o)),
            None => None,
        }
    } else if level == ADDITIVE {
        match Additive::spec_from(t) {
            Some(o) => Some(Precedance::Additive(o)),
            None => None,
        }
    } else if level == MULTIPLICATIVE {
        match Multiplicative::spec_from(t) {
            Some(o) => Some(Precedance::Multiplicative(o)),
            None => None,
        }
    } else if level == UNARY {
        match Unary::spec_from(t) {
            Some(o) => Some(Precedance::Unary(o)),
            None => None,
        }
    } else {
        None
    }
}

impl Precedance {
    /// The operator that `token_type` stands for at tier `level`, if any.
    pub fn of_level(level: usize, token_type: &TokenType) -> (r: Option<Precedance>)
        ensures
            r == tier_operator(level as nat, *token_type),
    {
        if level == EQUALITY {
            match Equality::try_from(token_type) {
                Some(o) => Some(Precedance::Equality(o)),
                None => None,
            }
        } else if level == COMPARISON {
            match Comparison::try_from(token_type) {
                Some(o) => Some(Precedance::Comparison(o)),
                None => None,
            }
        } else if level == ADDITIVE {
            match Additive::try_from(token_type) {
                Some(o) => Some(Precedance::Additive(o)),
                None => None,
            }
        } else if level == MULTIPLICATIVE {
            match Multiplicative::try_from(token_type) {
                Some(o) => Some(Precedance::Multiplicative(o)),
                None => None,
            }
        } else if level == UNARY {
            match Unary::try_from(token_type) {
                Some(o) => Some(Precedance::Unary(o)),
                None => None,
            }
        } else {
            None
        }
    }
}

/// An operator token and the tier it was read at.
#[derive(Debug, Clone, Copy)]
pub struct Operator<'a> {
    pub precedance: Precedance,
    pub token: Token<'a>,
}

impl<'a> Operator<'a> {
    pub fn precedance(&self) -> (r: &Precedance)
        ensures
            *r == self.precedance,
    {
        &self.precedance
    }

    pub fn token(&self) -> (r: &Token<'a>)
        ensures
            *r == self.token,
    {
        &self.token
    }
}

} // verus!
