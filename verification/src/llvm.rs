//! The error type surfaced by the native code-generation backend.
//!
//! The backend itself is foreign code driven through a C interface and
//! stays outside the verified core; what belongs here is the message
//! normalization its callers rely on.

use vstd::prelude::*;

verus! {

/// A message with its trailing periods removed.
pub open spec fn trim_dots(s: Seq<u8>) -> Seq<u8>
    decreases s.len(),
{
    if s.len() > 0 && s.last() == 46u8 {
        trim_dots(s.drop_last())
    } else {
        s
    }
}

/// A wrapper on a backend error message.
#[derive(Debug, Clone, PartialEq)]
pub struct Error {
    message: Vec<u8>,
}

impl Error {
    pub closed spec fn message_spec(&self) -> Seq<u8> {
        self.message@
    }

    /// Build an error from the raw message bytes handed over by the
    /// backend, trimming any trailing periods.
    #[verifier::loop_isolation(false)]
    pub fn new(message: Vec<u8>) -> (e: Error)
        ensures
            e.message_spec() == trim_dots(message@),
    {
        let ghost orig = message@;
        let mut m = message;
        while m.len() > 0 && m[m.len() - 1] == 46u8
            invariant
                trim_dots(m@) == trim_dots(orig),
            decreases m@.len(),
        {
            proof {
                assert(m@.drop_last() =~= m@.subrange(0, m@.len() - 1));
            }
            let _ = m.pop();
        }
        Error { message: m }
    }

    /// The normalized message.
    pub fn message(&self) -> (r: &Vec<u8>)
        ensures
            r@ == self.message_spec(),
    {
        &self.message
    }
}

} // verus!
