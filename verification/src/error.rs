//! Failures that the library reports to its caller.

use vstd::prelude::*;

verus! {

/// The ways an operation of this library can fail.
#[derive(Clone, Copy, Debug, PartialEq, Eq, Structural)]
pub enum Error {
    /// The operation needs a transport peer and the instance has none yet.
    NotPeered,
    /// The worker has met a fatal internal failure and does not resume.
    Terminated,
    /// A label could not be reduced to a filter index.
    UnindexedLabel,
    /// An identity could not be reduced to a filter index.
    UnindexedIdentity,
    /// An echoed chunk is not the encoding of a string.
    MalformedEcho,
}

impl Error {
    /// The text shown to a person for this failure.
    pub open spec fn spec_message(self) -> Seq<char> {
        match self {
            Error::NotPeered => "You must peer with a link first"@,
            Error::Terminated => "The worker has terminated"@,
            Error::UnindexedLabel => "A label has no filter index"@,
            Error::UnindexedIdentity => "An identity has no filter index"@,
            Error::MalformedEcho => "An echoed chunk is malformed"@,
        }
    }

    pub fn message(&self) -> (text: String)
        ensures
            text@ == self.spec_message(),
    {
        match self {
            Error::NotPeered => "You must peer with a link first".to_owned(),
            Error::Terminated => "The worker has terminated".to_owned(),
            Error::UnindexedLabel => "A label has no filter index".to_owned(),
            Error::UnindexedIdentity => "An identity has no filter index".to_owned(),
            Error::MalformedEcho => "An echoed chunk is malformed".to_owned(),
        }
    }
}

} // verus!
