use vstd::prelude::*;
use vstd::string::StringExecFns;

verus! {

/// A failed operation of the command line front end, with its cause.
#[derive(Debug, Clone, PartialEq, Eq)]
pub struct OperationError(pub String);

impl OperationError {
    /// The text shown for this error.
    pub open spec fn message_spec(self) -> Seq<char> {
        "There is an error: "@ + self.0@
    }

    /// The text shown for this error: a fixed lead-in, then the cause.
    pub fn message(&self) -> (text: String)
        ensures
            text@ == self.message_spec(),
    {
        String::from_str("There is an error: ").concat(self.0.as_str())
    }
}

} // verus!
