use vstd::prelude::*;

verus! {

/// Why a piece of dump text was refused. Each variant carries the offset, in
/// characters from the start of the parsed text, at which the parser stood.
#[derive(Debug, Clone, Copy, PartialEq, Eq, Structural)]
pub enum ParseError {
    /// The text does not have the shape of the construct asked for.
    Grammar { position: usize },
    /// The text has the right shape, but a literal in it cannot be stored
    /// (a number that does not fit 32 bits) or a clause of a closed set is
    /// not one of its members.
    Conversion { position: usize },
    /// A well-formed keyword that names a construct this library refuses to
    /// approximate.
    Unsupported { position: usize },
}

impl ParseError {
    /// Offset at which the error arose.
    pub open spec fn spec_position(self) -> usize {
        match self {
            ParseError::Grammar { position } => position,
            ParseError::Conversion { position } => position,
            ParseError::Unsupported { position } => position,
        }
    }

    /// Offset at which the error arose.
    #[verifier::when_used_as_spec(spec_position)]
    pub fn position(self) -> (p: usize)
        ensures
            p == self.spec_position(),
    {
        match self {
            ParseError::Grammar { position } => position,
            ParseError::Conversion { position } => position,
            ParseError::Unsupported { position } => position,
        }
    }
}

} // verus!
