use vstd::prelude::*;

use crate::parser::Parser;
use crate::response::Response;

verus! {

/// A cursor over a sequence of tokens.
pub struct TokenStream<T> {
    tokens: Vec<T>,
    pos: usize,
}

impl<T: Copy> TokenStream<T> {
    /// The tokens the stream reads.
    pub closed spec fn tokens(&self) -> Seq<T> {
        self.tokens@
    }

    /// How many tokens have been consumed.
    pub closed spec fn spec_position(&self) -> nat {
        self.pos as nat
    }

    /// The stream moved one token further.
    pub closed spec fn advanced(self) -> Self {
        TokenStream { tokens: self.tokens, pos: (self.pos + 1) as usize }
    }

    /// Moving a stream that has a token left keeps its tokens and moves its
    /// position by one.
    pub proof fn lemma_advanced(self)
        requires
            self.spec_position() < self.tokens().len() <= usize::MAX,
        ensures
            self.advanced().tokens() == self.tokens(),
            self.advanced().spec_position() == self.spec_position() + 1,
    {
    }

    /// The stream after one token has been read from it, and that token, if
    /// one is left.
    pub open spec fn spec_next(self) -> (Self, Option<T>) {
        if self.spec_position() < self.tokens().len() {
            (self.advanced(), Some(self.tokens()[self.spec_position() as int]))
        } else {
            (self, None)
        }
    }

    pub fn new(tokens: Vec<T>) -> (s: Self)
        ensures
            s.tokens() == tokens@,
            s.spec_position() == 0,
            s.tokens().len() <= usize::MAX,
    {
        let _ = tokens.len();
        TokenStream { tokens, pos: 0 }
    }

    pub fn position(&self) -> (r: usize)
        ensures
            r == self.spec_position(),
    {
        self.pos
    }

    /// Reads the next token and advances past it; at the end of the tokens
    /// returns `None` and leaves the stream as it is.
    pub fn next_token(&mut self) -> (r: Option<T>)
        ensures
            (*final(self), r) == old(self).spec_next(),
            final(self).tokens() == old(self).tokens(),
            old(self).spec_position() < old(self).tokens().len() ==> final(self).spec_position()
                == old(self).spec_position() + 1,
    {
        if self.pos < self.tokens.len() {
            let t = self.tokens[self.pos];
            self.pos = self.pos + 1;
            Some(t)
        } else {
            None
        }
    }
}

/// A parsing unit that reads one token: it succeeds with the token, or fails
/// silently at the end of the stream.
pub struct Next<T, E> {
    marker: std::marker::PhantomData<(T, E)>,
}

impl<T: Copy, E> Next<T, E> {
    pub fn new() -> Self {
        Next { marker: std::marker::PhantomData }
    }
}

impl<T: Copy, E> Parser for Next<T, E> {
    type Input = TokenStream<T>;
    type Value = T;
    type Error = E;

    open spec fn ready(&self) -> bool {
        true
    }

    open spec fn spec_parse(&self, input: TokenStream<T>) -> (TokenStream<T>, Response<T, E>) {
        let (after, t) = input.spec_next();
        match t {
            Some(v) => (after, Response::Success(v)),
            None => (after, Response::Failure),
        }
    }

    fn parse_stream(&self, input: &mut TokenStream<T>) -> (r: Response<T, E>) {
        match input.next_token() {
            Some(v) => Response::Success(v),
            None => Response::Failure,
        }
    }
}

} // verus!
