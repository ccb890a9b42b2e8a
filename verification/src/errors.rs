//! Error taxonomy of the serving path. A missing file is not an error: it is
//! the `None` outcome of serving, kept distinct so the HTTP layer can answer
//! 404 instead of 500.

use vstd::prelude::*;

verus! {

/// A failure while producing a response body.
#[derive(Clone, Copy, Debug, PartialEq, Eq, Structural)]
pub enum ServeError {
    /// An HTML file's bytes were not valid UTF-8, so the reload-client
    /// script could not be spliced into it.
    InvalidEncoding,
}

impl ServeError {
    /// Human-readable detail, used as the body of a 500 response.
    pub fn message(&self) -> (r: String)
        ensures
            r@ == self.message_spec(),
    {
        match self {
            ServeError::InvalidEncoding => "HTML file is not valid UTF-8".to_owned(),
        }
    }

    pub open spec fn message_spec(self) -> Seq<char> {
        match self {
            ServeError::InvalidEncoding => "HTML file is not valid UTF-8"@,
        }
    }
}

} // verus!
