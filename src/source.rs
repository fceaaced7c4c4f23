use vstd::prelude::*;

verus! {

/// Line of the character at offset `n` of `text`: the number of newlines before it.
pub open spec fn line_at(text: Seq<char>, n: nat) -> nat
    decreases n,
{
    if n == 0 {
        0
    } else {
        line_at(text, (n - 1) as nat) + if text[n - 1] == '\n' { 1nat } else { 0nat }
    }
}

/// Column of the character at offset `n` of `text`: the number of characters
/// between it and the last newline before it.
pub open spec fn column_at(text: Seq<char>, n: nat) -> nat
    decreases n,
{
    if n == 0 {
        0
    } else if text[n - 1] == '\n' {
        0
    } else {
        column_at(text, (n - 1) as nat) + 1
    }
}

pub proof fn lemma_line_column_bounded(text: Seq<char>, n: nat)
    ensures
        line_at(text, n) <= n,
        column_at(text, n) <= n,
    decreases n,
{
    if n > 0 {
        lemma_line_column_bounded(text, (n - 1) as nat);
    }
}

/// The characters of `s`, in order.
pub fn chars_of(s: &str) -> (r: Vec<char>)
    ensures
        r@ == s@,
{
    let mut characters: Vec<char> = Vec::new();
    for c in it: s.chars()
        invariant
            characters@ == it.seq().take(it.index() as int),
    {
        characters.push(c);
    }
    characters
}

/// A place in the source text. `index` counts characters (Unicode scalar
/// values) from the start; `line` and `column` start at zero.
#[derive(Debug, Clone, Copy, PartialEq, Eq, Structural)]
pub struct Position {
    pub line: usize,
    pub column: usize,
    pub index: usize,
}

impl Position {
    /// The position of the character at offset `n` of `text`.
    pub open spec fn at(text: Seq<char>, n: nat) -> Position {
        Position {
            line: line_at(text, n) as usize,
            column: column_at(text, n) as usize,
            index: n as usize,
        }
    }

    /// The position of the first character.
    pub fn start() -> (r: Position)
        ensures
            r == Position::at(Seq::empty(), 0),
            forall|text: Seq<char>| r == Position::at(text, 0),
    {
        Position { line: 0, column: 0, index: 0 }
    }

    pub fn line(&self) -> (r: usize)
        ensures
            r == self.line,
    {
        self.line
    }

    pub fn column(&self) -> (r: usize)
        ensures
            r == self.column,
    {
        self.column
    }

    pub fn index(&self) -> (r: usize)
        ensures
            r == self.index,
    {
        self.index
    }

    fn move_to_next_column(&mut self)
        requires
            old(self).column < usize::MAX,
            old(self).index < usize::MAX,
        ensures
            final(self).line == old(self).line,
            final(self).column == old(self).column + 1,
            final(self).index == old(self).index + 1,
    {
        self.column = self.column + 1;
        self.index = self.index + 1;
    }

    fn move_to_next_line(&mut self)
        requires
            old(self).line < usize::MAX,
            old(self).index < usize::MAX,
        ensures
            final(self).line == old(self).line + 1,
            final(self).column == 0,
            final(self).index == old(self).index + 1,
    {
        self.line = self.line + 1;
        self.column = 0;
        self.index = self.index + 1;
    }
}

impl Default for Position {
    fn default() -> (r: Position)
        ensures
            r == Position::at(Seq::empty(), 0),
    {
        Position::start()
    }
}


/// A reader over source text, one character at a time, that keeps track of
/// the position of the next character.
pub struct Source<'a> {
    source: &'a str,
    characters: Vec<char>,
    position: Position,
}

impl<'a> Source<'a> {
    /// The whole source text.
    pub closed spec fn text(&self) -> Seq<char> {
        self.source@
    }

    /// How many characters have been consumed.
    pub closed spec fn offset(&self) -> nat {
        self.position.index as nat
    }

    pub closed spec fn spec_position(&self) -> Position {
        self.position
    }

    pub closed spec fn spec_source(&self) -> &'a str {
        self.source
    }

    pub closed spec fn wf(&self) -> bool {
        &&& self.characters@ == self.source@
        &&& self.position.index <= self.characters.len()
        &&& self.position == Position::at(self.source@, self.position.index as nat)
    }

    pub proof fn lemma_wf(&self)
        requires
            self.wf(),
        ensures
            self.offset() <= self.text().len(),
            self.text().len() <= usize::MAX,
            self.spec_source()@ == self.text(),
            self.spec_position() == Position::at(self.text(), self.offset()),
    {
    }

    /// The character at the current offset, if any is left.
    pub open spec fn spec_peek(&self) -> Option<char> {
        if self.offset() < self.text().len() {
            Some(self.text()[self.offset() as int])
        } else {
            None
        }
    }

    /// The reader one character further on; the position is that of the
    /// next character in the text.
    pub open spec fn advanced(&self, next: &Source<'a>) -> bool {
        &&& next.wf()
        &&& next.text() == self.text()
        &&& next.spec_source() == self.spec_source()
        &&& next.offset() == self.offset() + 1
        &&& next.spec_position() == Position::at(self.text(), next.offset())
    }

    pub fn new(source: &'a str) -> (r: Source<'a>)
        ensures
            r.wf(),
            r.text() == source@,
            r.spec_source() == source,
            r.offset() == 0,
            r.spec_position() == Position::at(source@, 0),
    {
        let characters = chars_of(source);
        Source { source, characters, position: Position::start() }
    }

    pub fn source(&self) -> (r: &'a str)
        ensures
            r == self.spec_source(),
    {
        self.source
    }

    pub fn position(&self) -> (r: &Position)
        ensures
            *r == self.spec_position(),
    {
        &self.position
    }

    /// The next character, without consuming it.
    pub fn peek(&self) -> (r: Option<&char>)
        requires
            self.wf(),
        ensures
            match r {
                Some(c) => self.spec_peek() == Some(*c),
                None => self.spec_peek() is None,
            },
    {
        if self.position.index < self.characters.len() {
            Some(&self.characters[self.position.index])
        } else {
            None
        }
    }

    /// Consumes the next character and returns it with its position.
    pub fn next(&mut self) -> (r: Option<(Position, char)>)
        requires
            old(self).wf(),
        ensures
            final(self).wf(),
            match r {
                Some((p, c)) => {
                    &&& old(self).spec_peek() == Some(c)
                    &&& p == old(self).spec_position()
                    &&& old(self).advanced(final(self))
                },
                None => old(self).spec_peek() is None && *final(self) == *old(self),
            },
    {
        if self.position.index >= self.characters.len() {
            return None;
        }
        let position = self.position;
        let character = self.characters[self.position.index];
        proof {
            lemma_line_column_bounded(self.source@, self.position.index as nat);
        }
        if character == '\n' {
            self.position.move_to_next_line();
        } else {
            self.position.move_to_next_column();
        }
        assert(self.position == Position::at(self.source@, self.position.index as nat));
        Some((position, character))
    }

    /// Consumes the next character only if `predicate` holds of it.
    pub fn next_if<F: FnOnce(&char) -> bool>(&mut self, predicate: F) -> (r: Option<(Position, char)>)
        requires
            old(self).wf(),
            forall|c: &char| predicate.requires((c,)),
        ensures
            final(self).wf(),
            match r {
                Some((p, c)) => {
                    &&& old(self).spec_peek() == Some(c)
                    &&& predicate.ensures((&c,), true)
                    &&& p == old(self).spec_position()
                    &&& old(self).advanced(final(self))
                },
                None => {
                    &&& *final(self) == *old(self)
                    &&& match old(self).spec_peek() {
                        Some(c) => predicate.ensures((&c,), false),
                        None => true,
                    }
                },
            },
    {
        let next_character = match self.peek() {
            Some(c) => c,
            None => return None,
        };
        let predicate_satisfied = predicate(next_character);
        if !predicate_satisfied {
            return None;
        }
        self.next()
    }

    /// Consumes the next character only if `predicate` holds of it, and says
    /// whether it did.
    pub fn consume_if<F: FnOnce(&char) -> bool>(&mut self, predicate: F) -> (r: bool)
        requires
            old(self).wf(),
            forall|c: &char| predicate.requires((c,)),
        ensures
            final(self).wf(),
            r ==> {
                &&& predicate.ensures((&old(self).spec_peek()->0,), true)
                &&& old(self).spec_peek() is Some
                &&& old(self).advanced(final(self))
            },
            !r ==> {
                &&& *final(self) == *old(self)
                &&& match old(self).spec_peek() {
                    Some(c) => predicate.ensures((&c,), false),
                    None => true,
                }
            },
    {
        self.next_if(predicate).is_some()
    }

    /// Consumes the next character only if it is `expected`.
    pub fn next_if_character(&mut self, expected: char) -> (r: Option<(Position, char)>)
        requires
            old(self).wf(),
        ensures
            final(self).wf(),
            match r {
                Some((p, c)) => {
                    &&& old(self).spec_peek() == Some(expected)
                    &&& c == expected
                    &&& p == old(self).spec_position()
                    &&& old(self).advanced(final(self))
                },
                None => *final(self) == *old(self) && old(self).spec_peek() != Some(expected),
            },
    {
        self.next_if(|character: &char| -> (b: bool)
            ensures
                b == (*character == expected),
            { *character == expected })
    }

    /// Consumes the next character only if it is `expected`, and says whether it did.
    pub fn consume_if_character(&mut self, expected: char) -> (r: bool)
        requires
            old(self).wf(),
        ensures
            final(self).wf(),
            r ==> old(self).spec_peek() == Some(expected) && old(self).advanced(final(self)),
            !r ==> *final(self) == *old(self) && old(self).spec_peek() != Some(expected),
    {
        self.next_if_character(expected).is_some()
    }

    /// Consumes the next character only if it is not `expected`.
    pub fn next_if_not_character(&mut self, expected: char) -> (r: Option<(Position, char)>)
        requires
            old(self).wf(),
        ensures
            final(self).wf(),
            match r {
                Some((p, c)) => {
                    &&& old(self).spec_peek() == Some(c)
                    &&& c != expected
                    &&& p == old(self).spec_position()
                    &&& old(self).advanced(final(self))
                },
                None => {
                    &&& *final(self) == *old(self)
                    &&& (old(self).spec_peek() is None || old(self).spec_peek() == Some(expected))
                },
            },
    {
        self.next_if(|character: &char| -> (b: bool)
            ensures
                b == (*character != expected),
            { *character != expected })
    }

    /// Consumes the next character only if it is not `expected`, and says
    /// whether it did.
    pub fn consume_if_not_character(&mut self, expected: char) -> (r: bool)
        requires
            old(self).wf(),
        ensures
            final(self).wf(),
            r ==> {
                &&& old(self).spec_peek() is Some
                &&& old(self).spec_peek() != Some(expected)
                &&& old(self).advanced(final(self))
            },
            !r ==> {
                &&& *final(self) == *old(self)
                &&& (old(self).spec_peek() is None || old(self).spec_peek() == Some(expected))
            },
    {
        self.next_if_not_character(expected).is_some()
    }
}

} // verus!
