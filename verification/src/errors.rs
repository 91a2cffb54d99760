use vstd::prelude::*;

verus! {

/// Errors returned by manifest operations.
///
/// `ItrExistsWithSameName` is the duplicate-name conflict raised when an
/// iterator is registered under a name that is already taken by an entry with
/// different fields. `ItrDoesNotExist` is raised by an iterator delete when
/// the name is unknown, or known under a different log; the two causes are
/// deliberately not distinguished.
#[derive(Debug, Clone, Copy, PartialEq, Eq)]
pub enum Error {
    ItrExistsWithSameName,
    ItrDoesNotExist,
}

impl Error {
    /// The client-facing text of the error.
    pub open spec fn spec_message(self) -> Seq<char> {
        match self {
            Error::ItrExistsWithSameName => "itr exists with same name"@,
            Error::ItrDoesNotExist => "itr does not exist"@,
        }
    }

    pub fn message(&self) -> (r: &'static str)
        ensures
            r@ == self.spec_message(),
    {
        match self {
            Error::ItrExistsWithSameName => "itr exists with same name",
            Error::ItrDoesNotExist => "itr does not exist",
        }
    }
}

} // verus!
