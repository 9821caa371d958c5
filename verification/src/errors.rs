//! The error type that a scaffold run reports: a single human-readable
//! message, produced wherever a filesystem write or an external tool
//! fails and handed unchanged up through the whole run.

use vstd::prelude::*;
use vstd::string::StringExecFns;

verus! {

/// A scaffolding failure, carrying a human-readable message.
pub struct ScaffError {
    pub message: String,
}

impl ScaffError {
    /// Wraps a message.
    pub fn new(message: String) -> (r: ScaffError)
        ensures
            r.message@ == message@,
    {
        ScaffError { message }
    }

    /// The full text under which the failure is reported.
    pub fn to_text(&self) -> (r: String)
        ensures
            r@ == "Scaffold did not work properly - Error: "@ + self.message@,
    {
        "Scaffold did not work properly - Error: ".to_owned().concat(self.message.as_str())
    }
}

} // verus!
