use crate::source::{chars_of, Position};
use vstd::prelude::*;

verus! {

/// The reserved words of the language.
#[derive(Debug, Clone, Copy, PartialEq, Eq, Structural)]
pub enum Keyword {
    And,
    Class,
    Else,
    False,
    Fun,
    For,
    If,
    Nil,
    Or,
    Print,
    Return,
    Super,
    This,
    True,
    Var,
    While,
}

/// The keyword spelled exactly `word` (lower case), if there is one.
pub open spec fn keyword_of(word: Seq<char>) -> Option<Keyword> {
        if word == Keyword::And.spelling() {
            Some(Keyword::And)
        }
        else if word == Keyword::Class.spelling() {
            Some(Keyword::Class)
        }
        else if word == Keyword::Else.spelling() {
            Some(Keyword::Else)
        }
        else if word == Keyword::False.spelling() {
            Some(Keyword::False)
        }
        else if word == Keyword::Fun.spelling() {
            Some(Keyword::Fun)
        }
        else if word == Keyword::For.spelling() {
            Some(Keyword::For)
        }
        else if word == Keyword::If.spelling() {
            Some(Keyword::If)
        }
        else if word == Keyword::Nil.spelling() {
            Some(Keyword::Nil)
        }
        else if word == Keyword::Or.spelling() {
            Some(Keyword::Or)
        }
        else if word == Keyword::Print.spelling() {
            Some(Keyword::Print)
        }
        else if word == Keyword::Return.spelling() {
            Some(Keyword::Return)
        }
        else if word == Keyword::Super.spelling() {
            Some(Keyword::Super)
        }
        else if word == Keyword::This.spelling() {
            Some(Keyword::This)
        }
        else if word == Keyword::True.spelling() {
            Some(Keyword::True)
        }
        else if word == Keyword::Var.spelling() {
            Some(Keyword::Var)
        }
        else if word == Keyword::While.spelling() {
            Some(Keyword::While)
        }
        else {
            None
        }
}

impl Keyword {
    /// How the keyword is written in source text.
    pub open spec fn spelling(self) -> Seq<char> {
        match self {
            Keyword::And => seq!['a', 'n', 'd'],
            Keyword::Class => seq!['c', 'l', 'a', 's', 's'],
            Keyword::Else => seq!['e', 'l', 's', 'e'],
            Keyword::False => seq!['f', 'a', 'l', 's', 'e'],
            Keyword::Fun => seq!['f', 'u', 'n'],
            Keyword::For => seq!['f', 'o', 'r'],
            Keyword::If => seq!['i', 'f'],
            Keyword::Nil => seq!['n', 'i', 'l'],
            Keyword::Or => seq!['o', 'r'],
            Keyword::Print => seq!['p', 'r', 'i', 'n', 't'],
            Keyword::Return => seq!['r', 'e', 't', 'u', 'r', 'n'],
            Keyword::Super => seq!['s', 'u', 'p', 'e', 'r'],
            Keyword::This => seq!['t', 'h', 'i', 's'],
            Keyword::True => seq!['t', 'r', 'u', 'e'],
            Keyword::Var => seq!['v', 'a', 'r'],
            Keyword::While => seq!['w', 'h', 'i', 'l', 'e'],
        }
    }

    /// How the keyword is written, as text.
    pub fn word(&self) -> (r: &'static str)
        ensures
            r@ == self.spelling(),
    {
        match self {
            Keyword::And => {
                proof {
                    reveal_strlit("and");
                }
                assert("and"@ =~= self.spelling());
                "and"
            },
            Keyword::Class => {
                proof {
                    reveal_strlit("class");
                }
                assert("class"@ =~= self.spelling());
                "class"
            },
            Keyword::Else => {
                proof {
                    reveal_strlit("else");
                }
                assert("else"@ =~= self.spelling());
                "else"
            },
            Keyword::False => {
                proof {
                    reveal_strlit("false");
                }
                assert("false"@ =~= self.spelling());
                "false"
            },
            Keyword::Fun => {
                proof {
                    reveal_strlit("fun");
                }
                assert("fun"@ =~= self.spelling());
                "fun"
            },
            Keyword::For => {
                proof {
                    reveal_strlit("for");
                }
                assert("for"@ =~= self.spelling());
                "for"
            },
            Keyword::If => {
                proof {
                    reveal_strlit("if");
                }
                assert("if"@ =~= self.spelling());
                "if"
            },
            Keyword::Nil => {
                proof {
                    reveal_strlit("nil");
                }
                assert("nil"@ =~= self.spelling());
                "nil"
            },
            Keyword::Or => {
                proof {
                    reveal_strlit("or");
                }
                assert("or"@ =~= self.spelling());
                "or"
            },
            Keyword::Print => {
                proof {
                    reveal_strlit("print");
                }
                assert("print"@ =~= self.spelling());
                "print"
            },
            Keyword::Return => {
                proof {
                    reveal_strlit("return");
                }
                assert("return"@ =~= self.spelling());
                "return"
            },
            Keyword::Super => {
                proof {
                    reveal_strlit("super");
                }
                assert("super"@ =~= self.spelling());
                "super"
            },
            Keyword::This => {
                proof {
                    reveal_strlit("this");
                }
                assert("this"@ =~= self.spelling());
                "this"
            },
            Keyword::True => {
                proof {
                    reveal_strlit("true");
                }
                assert("true"@ =~= self.spelling());
                "true"
            },
            Keyword::Var => {
                proof {
                    reveal_strlit("var");
                }
                assert("var"@ =~= self.spelling());
                "var"
            },
            Keyword::While => {
                proof {
                    reveal_strlit("while");
                }
                assert("while"@ =~= self.spelling());
                "while"
            },
        }
    }

    fn is_spelled(&self, word: &Vec<char>) -> (r: bool)
        ensures
            r == (word@ == self.spelling()),
    {
        let text = chars_of(self.word());
        if text.len() != word.len() {
            return false;
        }
        let mut i: usize = 0;
        while i < text.len()
            invariant
                text@ == self.spelling(),
                text.len() == word.len(),
                i <= text.len(),
                word@.take(i as int) == text@.take(i as int),
            decreases text.len() - i,
        {
            if text[i] != word[i] {
                return false;
            }
            assert(word@.take(i + 1) == word@.take(i as int).push(word@[i as int]));
            assert(text@.take(i + 1) == text@.take(i as int).push(text@[i as int]));
            i = i + 1;
        }
        assert(word@ == word@.take(i as int));
        assert(text@ == text@.take(i as int));
        true
    }

    /// The keyword spelled exactly `word`, if there is one.
    pub fn from_spelling(word: &str) -> (r: Option<Keyword>)
        ensures
            r == keyword_of(word@),
    {
        let word = chars_of(word);
        if Keyword::And.is_spelled(&word) {
            return Some(Keyword::And);
        }
        if Keyword::Class.is_spelled(&word) {
            return Some(Keyword::Class);
        }
        if Keyword::Else.is_spelled(&word) {
            return Some(Keyword::Else);
        }
        if Keyword::False.is_spelled(&word) {
            return Some(Keyword::False);
        }
        if Keyword::Fun.is_spelled(&word) {
            return Some(Keyword::Fun);
        }
        if Keyword::For.is_spelled(&word) {
            return Some(Keyword::For);
        }
        if Keyword::If.is_spelled(&word) {
            return Some(Keyword::If);
        }
        if Keyword::Nil.is_spelled(&word) {
            return Some(Keyword::Nil);
        }
        if Keyword::Or.is_spelled(&word) {
            return Some(Keyword::Or);
        }
        if Keyword::Print.is_spelled(&word) {
            return Some(Keyword::Print);
        }
        if Keyword::Return.is_spelled(&word) {
            return Some(Keyword::Return);
        }
        if Keyword::Super.is_spelled(&word) {
            return Some(Keyword::Super);
        }
        if Keyword::This.is_spelled(&word) {
            return Some(Keyword::This);
        }
        if Keyword::True.is_spelled(&word) {
            return Some(Keyword::True);
        }
        if Keyword::Var.is_spelled(&word) {
            return Some(Keyword::Var);
        }
        if Keyword::While.is_spelled(&word) {
            return Some(Keyword::While);
        }
        None
    }
}

/// What a token is. String literals and identifiers borrow their text from
/// the source; a number keeps the digits it was written with.
#[derive(Debug, Clone, Copy, PartialEq, Eq)]
pub enum TokenType<'a> {
    OpenParanthesis,
    CloseParanthesis,
    OpenBrace,
    CloseBrace,
    Comma,
    Dot,
    Semicolon,
    Plus,
    Minus,
    Multiply,
    Divide,
    Assign,
    Not,
    NotEquals,
    Equals,
    GreaterThan,
    GreaterThanOrEquals,
    LessThan,
    LessThanOrEquals,
    String(&'a str),
    Number(&'a str),
    Identifier(&'a str),
    Keyword(Keyword),
}

/// The mathematical model of a [`TokenType`]: borrowed text is seen as its characters.
pub enum TokenTypeView {
    OpenParanthesis,
    CloseParanthesis,
    OpenBrace,
    CloseBrace,
    Comma,
    Dot,
    Semicolon,
    Plus,
    Minus,
    Multiply,
    Divide,
    Assign,
    Not,
    NotEquals,
    Equals,
    GreaterThan,
    GreaterThanOrEquals,
    LessThan,
    LessThanOrEquals,
    String(Seq<char>),
    Number(Seq<char>),
    Identifier(Seq<char>),
    Keyword(Keyword),
}

impl<'a> View for TokenType<'a> {
    type V = TokenTypeView;

    open spec fn view(&self) -> TokenTypeView {
        match *self {
            TokenType::OpenParanthesis => TokenTypeView::OpenParanthesis,
            TokenType::CloseParanthesis => TokenTypeView::CloseParanthesis,
            TokenType::OpenBrace => TokenTypeView::OpenBrace,
            TokenType::CloseBrace => TokenTypeView::CloseBrace,
            TokenType::Comma => TokenTypeView::Comma,
            TokenType::Dot => TokenTypeView::Dot,
            TokenType::Semicolon => TokenTypeView::Semicolon,
            TokenType::Plus => TokenTypeView::Plus,
            TokenType::Minus => TokenTypeView::Minus,
            TokenType::Multiply => TokenTypeView::Multiply,
            TokenType::Divide => TokenTypeView::Divide,
            TokenType::Assign => TokenTypeView::Assign,
            TokenType::Not => TokenTypeView::Not,
            TokenType::NotEquals => TokenTypeView::NotEquals,
            TokenType::Equals => TokenTypeView::Equals,
            TokenType::GreaterThan => TokenTypeView::GreaterThan,
            TokenType::GreaterThanOrEquals => TokenTypeView::GreaterThanOrEquals,
            TokenType::LessThan => TokenTypeView::LessThan,
            TokenType::LessThanOrEquals => TokenTypeView::LessThanOrEquals,
            TokenType::String(s) => TokenTypeView::String(s@),
            TokenType::Number(s) => TokenTypeView::Number(s@),
            TokenType::Identifier(s) => TokenTypeView::Identifier(s@),
            TokenType::Keyword(k) => TokenTypeView::Keyword(k),
        }
    }
}

/// The model of a [`Token`].
pub struct TokenView {
    pub kind: TokenTypeView,
    pub position: Position,
}

/// A token: what it is, and where in the source it starts.
#[derive(Debug, Clone, Copy)]
pub struct Token<'a> {
    kind: TokenType<'a>,
    position: Position,
}

impl<'a> View for Token<'a> {
    type V = TokenView;

    open spec fn view(&self) -> TokenView {
        TokenView { kind: self.spec_kind()@, position: self.spec_position() }
    }
}

/// Whether a token of this type can stand as an operand by itself: a number,
/// a string, an identifier, or one of the keywords `true`, `false` and `nil`.
pub open spec fn is_literal_type(t: TokenType) -> bool {
    match t {
        TokenType::Number(_) | TokenType::String(_) | TokenType::Identifier(_) => true,
        TokenType::Keyword(k) => k == Keyword::True || k == Keyword::False || k == Keyword::Nil,
        _ => false,
    }
}

impl<'a> Token<'a> {
    pub closed spec fn spec_kind(&self) -> TokenType<'a> {
        self.kind
    }

    pub closed spec fn spec_position(&self) -> Position {
        self.position
    }

    pub fn new(kind: TokenType<'a>, position: Position) -> (r: Token<'a>)
        ensures
            r.spec_kind() == kind,
            r.spec_position() == position,
    {
        Token { kind, position }
    }

    pub fn kind(&self) -> (r: &TokenType<'a>)
        ensures
            *r == self.spec_kind(),
    {
        &self.kind
    }

    pub fn position(&self) -> (r: &Position)
        ensures
            *r == self.spec_position(),
    {
        &self.position
    }

    pub fn is_literal(&self) -> (r: bool)
        ensures
            r == is_literal_type(self.spec_kind()),
    {
        match self.kind {
            TokenType::Number(_) | TokenType::String(_) | TokenType::Identifier(_) => true,
            TokenType::Keyword(k) => match k {
                Keyword::True | Keyword::False | Keyword::Nil => true,
                _ => false,
            },
            _ => false,
        }
    }
}

} // verus!
