use vstd::prelude::*;

use crate::response::Response;

verus! {

/// A parsing unit: consumes from a stream and produces a response.
///
/// Parsing is deterministic: the stream state after a parse and the response
/// are a function of the parser and the stream state before it
/// (`spec_parse`), so equal streams give equal outcomes.
pub trait Parser {
    type Input;
    type Value;
    type Error;

    /// What the parser needs before it can be run (for instance, that the
    /// functions it holds may be called).
    spec fn ready(&self) -> bool;

    /// The stream state after one parse from `input`, and the response.
    spec fn spec_parse(&self, input: Self::Input) -> (Self::Input, Response<Self::Value, Self::Error>);

    /// Parses from `input`, advancing it by what was consumed.
    fn parse_stream(&self, input: &mut Self::Input) -> (r: Response<Self::Value, Self::Error>)
        requires
            self.ready(),
        ensures
            (*final(input), r) == self.spec_parse(*old(input)),
    ;
}

} // verus!
