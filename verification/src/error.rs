use vstd::prelude::*;
use vstd::string::StringExecFns;

verus! {

/// Why an operation on a display configuration could not be carried out.
#[derive(Debug, Clone, Copy, PartialEq, Eq, Structural)]
pub enum Error {
    /// The connector is unknown, or it belongs to no logical monitor.
    NotFound,
    /// A physical monitor has no mode that is marked as current.
    NoCurrentMode,
    /// A piece of input is malformed.
    InvalidArgument,
}

impl Error {
    /// The text shown to the user for this error.
    pub open spec fn spec_message(self) -> Seq<char> {
        match self {
            Error::NotFound => "fatal: unable to find output."@,
            Error::NoCurrentMode => "fatal: output has no current mode."@,
            Error::InvalidArgument => "fatal: invalid argument."@,
        }
    }

    /// Renders the error for the user.
    pub fn message(&self) -> (text: String)
        ensures
            text@ == self.spec_message(),
    {
        match self {
            Error::NotFound => String::from_str("fatal: unable to find output."),
            Error::NoCurrentMode => String::from_str("fatal: output has no current mode."),
            Error::InvalidArgument => String::from_str("fatal: invalid argument."),
        }
    }
}

} // verus!
