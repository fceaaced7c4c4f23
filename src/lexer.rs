use crate::source::{Position, Source};
use crate::token::{keyword_of, Keyword, Token, TokenType, TokenTypeView, TokenView};
use itertools::Itertools;
use vstd::prelude::*;

verus! {

/// Whether `char::is_whitespace` holds of `c`.
pub uninterp spec fn whitespace_char(c: char) -> bool;

/// Whether `char::is_numeric` holds of `c`.
pub uninterp spec fn numeric_char(c: char) -> bool;

/// Whether `char::is_alphabetic` holds of `c`.
pub uninterp spec fn alphabetic_char(c: char) -> bool;

/// Relies on `char::is_whitespace`: whether `c` has the Unicode White_Space property.
#[verifier::external_body]
fn is_whitespace(c: char) -> (r: bool)
    ensures
        r == whitespace_char(c),
{
    c.is_whitespace()
}

/// Relies on `char::is_numeric`: whether `c` is in one of Unicode's number categories.
#[verifier::external_body]
fn is_numeric(c: char) -> (r: bool)
    ensures
        r == numeric_char(c),
{
    c.is_numeric()
}

/// Relies on `char::is_alphabetic`: whether `c` has the Unicode Alphabetic property.
#[verifier::external_body]
fn is_alphabetic(c: char) -> (r: bool)
    ensures
        r == alphabetic_char(c),
{
    c.is_alphabetic()
}

/// A character that may continue an identifier or keyword. (`char::is_alphanumeric`
/// is documented as `is_alphabetic() || is_numeric()`.)
pub open spec fn word_char(c: char) -> bool {
    alphabetic_char(c) || numeric_char(c) || c == '_'
}

/// The classes of character that the lexer consumes in runs.
pub enum CharClass {
    Whitespace,
    Digit,
    Word,
    NotQuote,
    NotNewline,
}

pub open spec fn in_class(class: CharClass, c: char) -> bool {
    match class {
        CharClass::Whitespace => whitespace_char(c),
        CharClass::Digit => decimal_digit(c),
        CharClass::Word => word_char(c),
        CharClass::NotQuote => c != '"',
        CharClass::NotNewline => c != '\n',
    }
}

/// The first offset at or after `i` whose character is not in `class`, or
/// the length of `s` if there is none.
pub open spec fn run_end(s: Seq<char>, i: nat, class: CharClass) -> nat
    decreases s.len() - i,
{
    if i >= s.len() || !in_class(class, s[i as int]) {
        i
    } else {
        run_end(s, i + 1, class)
    }
}

pub proof fn lemma_run_end_bounds(s: Seq<char>, i: nat, f: CharClass)
    ensures
        i <= run_end(s, i, f),
        i <= s.len() ==> run_end(s, i, f) <= s.len(),
        run_end(s, i, f) < s.len() ==> !in_class(f, s[run_end(s, i, f) as int]),
        run_end(s, run_end(s, i, f), f) == run_end(s, i, f),
    decreases s.len() - i,
{
    if i < s.len() && in_class(f, s[i as int]) {
        lemma_run_end_bounds(s, i + 1, f);
    }
}

/// Where a line comment whose text starts at `i` ends: just past the next
/// newline, or at the end of the input.
pub open spec fn comment_end(s: Seq<char>, i: nat) -> nat {
    let e = run_end(s, i, CharClass::NotNewline);
    if e < s.len() {
        e + 1
    } else {
        e
    }
}

/// Whether `c` is a decimal digit, `0` to `9`: the characters that make up
/// a number literal.
pub open spec fn decimal_digit(c: char) -> bool {
    '0' <= c && c <= '9'
}

fn is_decimal_digit(c: char) -> (r: bool)
    ensures
        r == decimal_digit(c),
{
    '0' <= c && c <= '9'
}

/// A lexed item: a token or an error.
pub type LexItem = Result<TokenView, Error>;

pub open spec fn token_item(kind: TokenTypeView, position: Position, next: nat) -> (LexItem, nat) {
    (Ok(TokenView { kind, position }), next)
}

pub open spec fn error_item(kind: ErrorType, position: Position, next: nat) -> (LexItem, nat) {
    (Err(Error { position, kind }), next)
}

/// A string literal whose opening quote is at `j`, and the offset after it.
pub open spec fn string_item(s: Seq<char>, j: nat) -> (LexItem, nat) {
    let e = run_end(s, j + 1, CharClass::NotQuote);
    if e >= s.len() {
        error_item(ErrorType::UnterminatedString, Position::at(s, j), e)
    } else {
        token_item(TokenTypeView::String(s.subrange(j + 1int, e as int)), Position::at(s, j), e + 1)
    }
}

/// A number literal that starts at `j`, and the offset after it. A decimal
/// point must be followed by at least one digit.
pub open spec fn number_item(s: Seq<char>, j: nat) -> (LexItem, nat) {
    let d = run_end(s, j + 1, CharClass::Digit);
    if d < s.len() && s[d as int] == '.' {
        if d + 1 < s.len() && decimal_digit(s[d + 1int]) {
            let e = run_end(s, d + 2, CharClass::Digit);
            token_item(TokenTypeView::Number(s.subrange(j as int, e as int)), Position::at(s, j), e)
        } else {
            error_item(ErrorType::NumberHasNoFractionalPart, Position::at(s, j), d + 1)
        }
    } else {
        token_item(TokenTypeView::Number(s.subrange(j as int, d as int)), Position::at(s, j), d)
    }
}

/// A keyword or identifier that starts at `j`, and the offset after it.
pub open spec fn word_item(s: Seq<char>, j: nat) -> (LexItem, nat) {
    let e = run_end(s, j + 1, CharClass::Word);
    let word = s.subrange(j as int, e as int);
    match keyword_of(word) {
        Some(k) => token_item(TokenTypeView::Keyword(k), Position::at(s, j), e),
        None => token_item(TokenTypeView::Identifier(word), Position::at(s, j), e),
    }
}

/// The operator or punctuation mark at `j` (which does not start a comment),
/// and the offset after it.
pub open spec fn symbol_item(s: Seq<char>, j: nat) -> (LexItem, nat) {
    let p = Position::at(s, j);
    let eq = j + 1 < s.len() && s[j + 1int] == '=';
    let c = s[j as int];
    if c == '(' {
        token_item(TokenTypeView::OpenParanthesis, p, j + 1)
    } else if c == ')' {
        token_item(TokenTypeView::CloseParanthesis, p, j + 1)
    } else if c == '{' {
        token_item(TokenTypeView::OpenBrace, p, j + 1)
    } else if c == '}' {
        token_item(TokenTypeView::CloseBrace, p, j + 1)
    } else if c == ',' {
        token_item(TokenTypeView::Comma, p, j + 1)
    } else if c == '.' {
        token_item(TokenTypeView::Dot, p, j + 1)
    } else if c == ';' {
        token_item(TokenTypeView::Semicolon, p, j + 1)
    } else if c == '+' {
        token_item(TokenTypeView::Plus, p, j + 1)
    } else if c == '-' {
        token_item(TokenTypeView::Minus, p, j + 1)
    } else if c == '*' {
        token_item(TokenTypeView::Multiply, p, j + 1)
    } else if c == '/' {
        token_item(TokenTypeView::Divide, p, j + 1)
    } else if c == '!' {
        if eq {
            token_item(TokenTypeView::NotEquals, p, j + 2)
        } else {
            token_item(TokenTypeView::Not, p, j + 1)
        }
    } else if c == '>' {
        if eq {
            token_item(TokenTypeView::GreaterThanOrEquals, p, j + 2)
        } else {
            token_item(TokenTypeView::GreaterThan, p, j + 1)
        }
    } else if c == '<' {
        if eq {
            token_item(TokenTypeView::LessThanOrEquals, p, j + 2)
        } else {
            token_item(TokenTypeView::LessThan, p, j + 1)
        }
    } else if c == '=' {
        if eq {
            token_item(TokenTypeView::Equals, p, j + 2)
        } else {
            token_item(TokenTypeView::Assign, p, j + 1)
        }
    } else {
        error_item(ErrorType::InvalidCharacter, p, j + 1)
    }
}

/// Whether a line comment (`//`) starts at `j`.
pub open spec fn comment_at(s: Seq<char>, j: nat) -> bool {
    j + 1 < s.len() && s[j as int] == '/' && s[j + 1int] == '/'
}

/// The next item of `s` from offset `i` on, and the offset after it; `None`
/// when only whitespace and comments are left. Whitespace and comments before
/// the item are skipped.
pub open spec fn next_item(s: Seq<char>, i: nat) -> Option<(LexItem, nat)>
    decreases s.len() - i,
    via next_item_decreases
{
    let j = run_end(s, i, CharClass::Whitespace);
    if j >= s.len() {
        None
    } else if s[j as int] == '"' {
        Some(string_item(s, j))
    } else if comment_at(s, j) {
        next_item(s, comment_end(s, j + 2))
    } else if s[j as int] == '/' {
        Some(symbol_item(s, j))
    } else if decimal_digit(s[j as int]) {
        Some(number_item(s, j))
    } else if alphabetic_char(s[j as int]) {
        Some(word_item(s, j))
    } else {
        Some(symbol_item(s, j))
    }
}

#[via_fn]
proof fn next_item_decreases(s: Seq<char>, i: nat) {
    let j = run_end(s, i, CharClass::Whitespace);
    lemma_run_end_bounds(s, i, CharClass::Whitespace);
    lemma_run_end_bounds(s, j + 2, CharClass::NotNewline);
}

/// The items of `s` from offset `i` on, in order.
pub open spec fn lex_items(s: Seq<char>, i: nat) -> Seq<LexItem>
    decreases s.len() - i,
    via lex_items_decreases
{
    match next_item(s, i) {
        None => Seq::empty(),
        Some((item, k)) => seq![item] + lex_items(s, k),
    }
}

pub proof fn lemma_next_item_progress(s: Seq<char>, i: nat)
    requires
        i <= s.len(),
    ensures
        next_item(s, i) matches Some((_, k)) ==> i < k <= s.len(),
    decreases s.len() - i,
{
    let j = run_end(s, i, CharClass::Whitespace);
    lemma_run_end_bounds(s, i, CharClass::Whitespace);
    if j < s.len() {
        lemma_run_end_bounds(s, j + 1, CharClass::NotQuote);
        lemma_run_end_bounds(s, j + 2, CharClass::NotNewline);
        lemma_run_end_bounds(s, j + 1, CharClass::Digit);
        let d = run_end(s, j + 1, CharClass::Digit);
        lemma_run_end_bounds(s, d + 2, CharClass::Digit);
        lemma_run_end_bounds(s, j + 1, CharClass::Word);
        if comment_at(s, j) {
            lemma_next_item_progress(s, comment_end(s, j + 2));
        }
    }
}

#[via_fn]
proof fn lex_items_decreases(s: Seq<char>, i: nat) {
    if i <= s.len() {
        lemma_next_item_progress(s, i);
    } else {
        lemma_run_end_bounds(s, i, CharClass::Whitespace);
    }
}

/// The whole input as a sequence of tokens and errors.
pub open spec fn lex_all(s: Seq<char>) -> Seq<LexItem> {
    lex_items(s, 0)
}

/// Whether `s`, from offset `i` on, holds only whitespace and line comments.
pub open spec fn blank_from(s: Seq<char>, i: nat) -> bool
    decreases s.len() - i,
    via blank_from_decreases
{
    if i >= s.len() {
        true
    } else if whitespace_char(s[i as int]) {
        blank_from(s, i + 1)
    } else if comment_at(s, i) {
        blank_from(s, comment_end(s, i + 2))
    } else {
        false
    }
}

#[via_fn]
proof fn blank_from_decreases(s: Seq<char>, i: nat) {
    lemma_run_end_bounds(s, i + 2, CharClass::NotNewline);
}

proof fn lemma_blank_after_whitespace(s: Seq<char>, i: nat)
    requires
        blank_from(s, i),
    ensures
        blank_from(s, run_end(s, i, CharClass::Whitespace)),
    decreases s.len() - i,
{
    if i < s.len() && whitespace_char(s[i as int]) {
        lemma_blank_after_whitespace(s, i + 1);
    }
}

proof fn lemma_blank_has_no_item(s: Seq<char>, i: nat)
    requires
        blank_from(s, i),
    ensures
        next_item(s, i) is None,
    decreases s.len() - i,
{
    let j = run_end(s, i, CharClass::Whitespace);
    lemma_run_end_bounds(s, i, CharClass::Whitespace);
    lemma_blank_after_whitespace(s, i);
    if j < s.len() {
        lemma_run_end_bounds(s, j + 2, CharClass::NotNewline);
        lemma_blank_has_no_item(s, comment_end(s, j + 2));
    }
}

/// Text made only of whitespace and line comments lexes to nothing: no
/// token and no error.
pub proof fn lemma_blank_text_lexes_to_nothing(s: Seq<char>)
    requires
        blank_from(s, 0),
    ensures
        lex_all(s) == Seq::<LexItem>::empty(),
        ok_items(lex_all(s)).len() == 0,
        err_items(lex_all(s)).len() == 0,
{
    lemma_blank_has_no_item(s, 0);
}

/// The successes among `items`, in order.
pub open spec fn ok_items<T, E>(items: Seq<Result<T, E>>) -> Seq<T>
    decreases items.len(),
{
    if items.len() == 0 {
        Seq::empty()
    } else {
        let rest = ok_items(items.drop_last());
        match items.last() {
            Ok(t) => rest.push(t),
            Err(_) => rest,
        }
    }
}

/// The failures among `items`, in order.
pub open spec fn err_items<T, E>(items: Seq<Result<T, E>>) -> Seq<E>
    decreases items.len(),
{
    if items.len() == 0 {
        Seq::empty()
    } else {
        let rest = err_items(items.drop_last());
        match items.last() {
            Ok(_) => rest,
            Err(e) => rest.push(e),
        }
    }
}

/// Relies on `itertools::Itertools::partition_result`: the `Ok` values and the
/// `Err` values of `items`, each in the order in which they came.
#[verifier::external_body]
fn partition<'a>(items: Vec<Result<Token<'a>, Error>>) -> (r: (Vec<Token<'a>>, Vec<Error>))
    ensures
        r.0@ == ok_items(items@),
        r.1@ == err_items(items@),
{
    items.into_iter().partition_result()
}

pub open spec fn item_view<'a>(item: Result<Token<'a>, Error>) -> LexItem {
    match item {
        Ok(t) => Ok(t@),
        Err(e) => Err(e),
    }
}

proof fn lemma_partition_views<'a>(items: Seq<Result<Token<'a>, Error>>)
    ensures
        ok_items(items).map_values(|t: Token<'a>| t@) == ok_items(items.map_values(|r| item_view(r))),
        err_items(items) == err_items(items.map_values(|r| item_view(r))),
    decreases items.len(),
{
    let views = items.map_values(|r| item_view(r));
    if items.len() > 0 {
        lemma_partition_views(items.drop_last());
        assert(views.drop_last() == items.drop_last().map_values(|r| item_view(r)));
    } else {
        assert(views.len() == 0);
    }
}

/// Where a lexical error was found, and what it is.
#[derive(Debug, Clone, Copy, PartialEq, Eq, Structural)]
pub struct Error {
    pub position: Position,
    pub kind: ErrorType,
}

impl Error {
    pub fn new(position: Position, kind: ErrorType) -> (r: Error)
        ensures
            r == (Error { position, kind }),
    {
        Error { position, kind }
    }

    pub fn position(&self) -> (r: Position)
        ensures
            r == self.position,
    {
        self.position
    }

    pub fn kind(&self) -> (r: ErrorType)
        ensures
            r == self.kind,
    {
        self.kind
    }
}

/// The kinds of lexical error.
#[derive(Debug, Clone, Copy, PartialEq, Eq, Structural)]
pub enum ErrorType {
    InvalidCharacter,
    UnterminatedString,
    NumberHasNoFractionalPart,
    /// A number literal that does not read as a float. Made only of decimal
    /// digits and one inner decimal point, a literal always reads as one, so
    /// the lexer does not give this kind.
    FailedParsingNumber,
}

impl ErrorType {
    /// A description for people.
    pub fn message(&self) -> (r: &'static str)
        ensures
            r@ == match *self {
                ErrorType::InvalidCharacter => "invalid character"@,
                ErrorType::UnterminatedString => "unterminated string"@,
                ErrorType::NumberHasNoFractionalPart => "number has no fractional part"@,
                ErrorType::FailedParsingNumber => "failed parsing number"@,
            },
    {
        match self {
            ErrorType::InvalidCharacter => "invalid character",
            ErrorType::UnterminatedString => "unterminated string",
            ErrorType::NumberHasNoFractionalPart => "number has no fractional part",
            ErrorType::FailedParsingNumber => "failed parsing number",
        }
    }
}

/// Turns source text into tokens, reporting every lexical error it meets.
pub struct Lexer<'a> {
    source: Source<'a>,
}

impl<'a> Lexer<'a> {
    pub closed spec fn wf(&self) -> bool {
        self.source.wf()
    }

    proof fn lemma_wf(&self)
        requires
            self.wf(),
        ensures
            self.offset() <= self.text().len(),
            self.text().len() <= usize::MAX,
            self.source.spec_source()@ == self.text(),
            self.source.spec_position() == Position::at(self.text(), self.offset()),
    {
        self.source.lemma_wf();
    }

    /// The text being lexed.
    pub closed spec fn text(&self) -> Seq<char> {
        self.source.text()
    }

    /// How much of the text has been consumed.
    pub closed spec fn offset(&self) -> nat {
        self.source.offset()
    }

    pub fn new(source: &'a str) -> (r: Lexer<'a>)
        ensures
            r.wf(),
            r.text() == source@,
            r.offset() == 0,
    {
        Lexer { source: Source::new(source) }
    }

    /// Lexes the rest of the input: every token if no error was found, else
    /// every error, in the order of the input.
    pub fn lex(&mut self) -> (r: Result<Vec<Token<'a>>, Vec<Error>>)
        requires
            old(self).wf(),
        ensures
            final(self).wf(),
            final(self).text() == old(self).text(),
            final(self).offset() == old(self).text().len(),
            ({
                let items = lex_items(old(self).text(), old(self).offset());
                match r {
                    Ok(tokens) => err_items(items).len() == 0 && tokens@.map_values(
                        |t: Token<'a>| t@,
                    ) == ok_items(items),
                    Err(errors) => err_items(items).len() > 0 && errors@ == err_items(items),
                }
            }),
    {
        let ghost s = self.text();
        let ghost start = self.offset();
        proof {
            self.lemma_wf();
        }
        let mut items: Vec<Result<Token<'a>, Error>> = Vec::new();
        loop
            invariant
                self.wf(),
                self.text() == s,
                s == old(self).text(),
                start == old(self).offset(),
                self.offset() <= s.len(),
                items@.map_values(|r| item_view(r)) + lex_items(s, self.offset()) == lex_items(
                    s,
                    start,
                ),
            ensures
                self.wf(),
                self.text() == s,
                self.offset() == s.len(),
                items@.map_values(|r| item_view(r)) == lex_items(s, start),
            decreases s.len() - self.offset(),
        {
            let ghost before = self.offset();
            proof {
                lemma_next_item_progress(s, before);
            }
            match self.next() {
                Some(item) => {
                    assert(lex_items(s, before) == seq![item_view(item)] + lex_items(
                        s,
                        self.offset(),
                    ));
                    let ghost old_items = items@;
                    items.push(item);
                    assert(items@.map_values(|r| item_view(r)) == old_items.map_values(
                        |r| item_view(r),
                    ).push(item_view(item)));
                    assert(items@.map_values(|r| item_view(r)) + lex_items(s, self.offset())
                        == old_items.map_values(|r| item_view(r)) + lex_items(s, before));
                },
                None => {
                    assert(items@.map_values(|r| item_view(r)) + lex_items(s, before)
                        == items@.map_values(|r| item_view(r)));
                    break ;
                },
            }
        }
        proof {
            lemma_partition_views(items@);
        }
        let (tokens, errors) = partition(items);
        if errors.len() > 0 {
            return Err(errors);
        }
        Ok(tokens)
    }

    /// The next token or error, skipping whitespace and comments before it;
    /// `None` once the input is used up.
    pub fn next(&mut self) -> (r: Option<Result<Token<'a>, Error>>)
        requires
            old(self).wf(),
        ensures
            final(self).wf(),
            final(self).text() == old(self).text(),
            match next_item(old(self).text(), old(self).offset()) {
                None => r is None && final(self).offset() == old(self).text().len(),
                Some((item, k)) => r matches Some(x) && item_view(x) == item && final(self).offset()
                    == k,
            },
    {
        let ghost s = self.text();
        let ghost start = self.offset();
        proof {
            self.lemma_wf();
        }
        loop
            invariant
                self.wf(),
                self.text() == s,
                s == old(self).text(),
                start == old(self).offset(),
                self.offset() <= s.len(),
                next_item(s, self.offset()) == next_item(s, start),
            decreases s.len() - self.offset(),
        {
            let ghost before = self.offset();
            self.consume_whitespaces();
            let ghost j = self.offset();
            proof {
                lemma_run_end_bounds(s, before, CharClass::Whitespace);
                lemma_run_end_bounds(s, j + 2, CharClass::NotNewline);
            }
            let character = match self.source.peek() {
                Some(c) => *c,
                None => return None,
            };
            if character == '"' {
                return Some(self.lex_string());
            }
            if character == '/' {
                match self.lex_symbol() {
                    Some(item) => return Some(item),
                    None => {},
                }
            } else if is_decimal_digit(character) {
                return Some(self.lex_number());
            } else if is_alphabetic(character) {
                return Some(self.lex_keyword_or_identifier());
            } else {
                match self.lex_symbol() {
                    Some(item) => return Some(item),
                    None => {},
                }
            }
        }
    }

    fn lex_string(&mut self) -> (r: Result<Token<'a>, Error>)
        requires
            old(self).wf(),
            old(self).source.spec_peek() == Some('"'),
        ensures
            final(self).wf(),
            final(self).text() == old(self).text(),
            (item_view(r), final(self).offset()) == string_item(old(self).text(), old(self).offset()),
    {
        let ghost s = self.text();
        let ghost j = self.offset();
        proof {
            self.lemma_wf();
        }
        let (start, _) = match self.source.next_if_character('"') {
            Some(x) => x,
            None => return Err(Error::new(*self.source.position(), ErrorType::UnterminatedString)),
        };
        while self.source.consume_if_not_character('"')
            invariant
                self.wf(),
                self.text() == s,
                self.source.spec_source()@ == s,
                j < self.offset() <= s.len(),
                run_end(s, self.offset(), CharClass::NotQuote) == run_end(s, j + 1, CharClass::NotQuote),
            decreases s.len() - self.offset(),
        {
        }
        proof {
            self.lemma_wf();
        }
        let end = self.source.position().index();
        let value = self.source.source().substring_char(start.index() + 1, end);
        match self.source.next_if_character('"') {
            None => Err(Error::new(start, ErrorType::UnterminatedString)),
            Some(_) => Ok(Token::new(TokenType::String(value), start)),
        }
    }

    fn lex_number(&mut self) -> (r: Result<Token<'a>, Error>)
        requires
            old(self).wf(),
            old(self).source.spec_peek() matches Some(c) && decimal_digit(c),
        ensures
            final(self).wf(),
            final(self).text() == old(self).text(),
            (item_view(r), final(self).offset()) == number_item(old(self).text(), old(self).offset()),
    {
        let ghost s = self.text();
        let ghost j = self.offset();
        proof {
            self.lemma_wf();
        }
        let digit = |character: &char| -> (b: bool)
            ensures
                b == decimal_digit(*character),
            { is_decimal_digit(*character) };
        let (start, _) = match self.source.next_if(digit) {
            Some(x) => x,
            None => return Err(Error::new(*self.source.position(), ErrorType::InvalidCharacter)),
        };
        while self.source.consume_if(digit)
            invariant
                forall|c: &char| digit.requires((c,)),
                forall|c: &char, b: bool| digit.ensures((c,), b) ==> b == decimal_digit(*c),
                self.wf(),
                self.text() == s,
                self.source.spec_source()@ == s,
                j < self.offset() <= s.len(),
                run_end(s, self.offset(), CharClass::Digit) == run_end(s, j + 1, CharClass::Digit),
            decreases s.len() - self.offset(),
        {
        }
        let ghost d = self.offset();
        if self.source.consume_if_character('.') {
            if self.source.next_if(digit).is_none() {
                return Err(Error::new(start, ErrorType::NumberHasNoFractionalPart));
            }
            while self.source.consume_if(digit)
                invariant
                    forall|c: &char| digit.requires((c,)),
                    forall|c: &char, b: bool| digit.ensures((c,), b) ==> b == decimal_digit(*c),
                    self.wf(),
                    self.text() == s,
                    self.source.spec_source()@ == s,
                    d + 2 <= self.offset() <= s.len(),
                    run_end(s, self.offset(), CharClass::Digit) == run_end(
                        s,
                        d + 2,
                        CharClass::Digit,
                    ),
                decreases s.len() - self.offset(),
            {
            }
        }
        proof {
            self.lemma_wf();
        }
        let end = self.source.position().index();
        let value = self.source.source().substring_char(start.index(), end);
        Ok(Token::new(TokenType::Number(value), start))
    }

    fn lex_keyword_or_identifier(&mut self) -> (r: Result<Token<'a>, Error>)
        requires
            old(self).wf(),
            old(self).source.spec_peek() matches Some(c) && alphabetic_char(c),
        ensures
            final(self).wf(),
            final(self).text() == old(self).text(),
            (item_view(r), final(self).offset()) == word_item(old(self).text(), old(self).offset()),
    {
        let ghost s = self.text();
        let ghost j = self.offset();
        proof {
            self.lemma_wf();
        }
        let letter = |character: &char| -> (b: bool)
            ensures
                b == alphabetic_char(*character),
            { is_alphabetic(*character) };
        let (start, _) = match self.source.next_if(letter) {
            Some(x) => x,
            None => return Err(Error::new(*self.source.position(), ErrorType::InvalidCharacter)),
        };
        let word = |character: &char| -> (b: bool)
            ensures
                b == word_char(*character),
            { is_alphabetic(*character) || is_numeric(*character) || *character == '_' };
        while self.source.consume_if(word)
            invariant
                forall|c: &char| word.requires((c,)),
                forall|c: &char, b: bool| word.ensures((c,), b) ==> b == word_char(*c),
                self.wf(),
                self.text() == s,
                self.source.spec_source()@ == s,
                j < self.offset() <= s.len(),
                run_end(s, self.offset(), CharClass::Word) == run_end(s, j + 1, CharClass::Word),
            decreases s.len() - self.offset(),
        {
        }
        proof {
            self.lemma_wf();
        }
        let end = self.source.position().index();
        let value = self.source.source().substring_char(start.index(), end);
        match Keyword::from_spelling(value) {
            Some(keyword) => Ok(Token::new(TokenType::Keyword(keyword), start)),
            None => Ok(Token::new(TokenType::Identifier(value), start)),
        }
    }

    /// Lexes an operator or punctuation mark, or skips a line comment and
    /// returns `None`.
    fn lex_symbol(&mut self) -> (r: Option<Result<Token<'a>, Error>>)
        requires
            old(self).wf(),
            old(self).source.spec_peek() is Some,
        ensures
            final(self).wf(),
            final(self).text() == old(self).text(),
            ({
                let s = old(self).text();
                let j = old(self).offset();
                if comment_at(s, j) {
                    r is None && final(self).offset() == comment_end(s, j + 2)
                } else {
                    r matches Some(x) && (item_view(x), final(self).offset()) == symbol_item(s, j)
                }
            }),
    {
        proof {
            self.lemma_wf();
        }
        let (position, character) = match self.source.next() {
            Some(x) => x,
            None => return None,
        };
        if character == '/' && self.source.consume_if_character('/') {
            self.consume_comment();
            return None;
        }
        let kind = match character {
            '(' => TokenType::OpenParanthesis,
            ')' => TokenType::CloseParanthesis,
            '{' => TokenType::OpenBrace,
            '}' => TokenType::CloseBrace,
            ',' => TokenType::Comma,
            '.' => TokenType::Dot,
            ';' => TokenType::Semicolon,
            '+' => TokenType::Plus,
            '-' => TokenType::Minus,
            '*' => TokenType::Multiply,
            '/' => TokenType::Divide,
            '!' => if self.source.consume_if_character('=') {
                TokenType::NotEquals
            } else {
                TokenType::Not
            },
            '>' => if self.source.consume_if_character('=') {
                TokenType::GreaterThanOrEquals
            } else {
                TokenType::GreaterThan
            },
            '<' => if self.source.consume_if_character('=') {
                TokenType::LessThanOrEquals
            } else {
                TokenType::LessThan
            },
            '=' => if self.source.consume_if_character('=') {
                TokenType::Equals
            } else {
                TokenType::Assign
            },
            _ => return Some(Err(Error::new(position, ErrorType::InvalidCharacter))),
        };
        Some(Ok(Token::new(kind, position)))
    }

    /// Consumes the rest of a line comment, through the end of the line.
    fn consume_comment(&mut self)
        requires
            old(self).wf(),
        ensures
            final(self).wf(),
            final(self).text() == old(self).text(),
            final(self).offset() == comment_end(old(self).text(), old(self).offset()),
    {
        let ghost s = self.text();
        proof {
            self.lemma_wf();
        }
        let ghost target = run_end(s, self.offset(), CharClass::NotNewline);
        while self.source.consume_if_not_character('\n')
            invariant
                self.wf(),
                self.text() == s,
                self.offset() <= s.len(),
                run_end(s, self.offset(), CharClass::NotNewline) == target,
            decreases s.len() - self.offset(),
        {
        }
        self.source.consume_if_character('\n');
    }

    fn consume_whitespaces(&mut self)
        requires
            old(self).wf(),
        ensures
            final(self).wf(),
            final(self).text() == old(self).text(),
            final(self).offset() == run_end(
                old(self).text(),
                old(self).offset(),
                CharClass::Whitespace,
            ),
    {
        let ghost s = self.text();
        proof {
            self.lemma_wf();
        }
        let ghost target = run_end(s, self.offset(), CharClass::Whitespace);
        let blank = |character: &char| -> (b: bool)
            ensures
                b == whitespace_char(*character),
            { is_whitespace(*character) };
        while self.source.consume_if(blank)
            invariant
                forall|c: &char| blank.requires((c,)),
                forall|c: &char, b: bool| blank.ensures((c,), b) ==> b == whitespace_char(*c),
                self.wf(),
                self.text() == s,
                self.offset() <= s.len(),
                run_end(s, self.offset(), CharClass::Whitespace) == target,
            decreases s.len() - self.offset(),
        {
        }
    }
}

} // verus!
