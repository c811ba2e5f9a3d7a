//! The failure envelope delivered when an operation cannot complete with a
//! success payload.

use vstd::prelude::*;
use vstd::string::StringExecFns;

verus! {

/// A failure description carried across the bridge: either a fault in a
/// cross-boundary call into the host runtime, or a fault of the underlying
/// network fetch workload.  Each variant keeps the formatted detail text of
/// the underlying fault.
#[derive(Debug, Clone)]
pub enum Error {
    /// A cross-boundary invocation into the host runtime failed.
    Jni { detail: String },
    /// The network fetch performed by the demonstration workload failed.
    Reqwest { detail: String },
}

impl Error {
    /// The text of this failure as shown to the host: the variant's label
    /// followed by the detail of the underlying fault.
    pub open spec fn describe_spec(self) -> Seq<char> {
        match self {
            Error::Jni { detail } => "Jni error: "@ + detail@,
            Error::Reqwest { detail } => "Reqwest error: "@ + detail@,
        }
    }

    /// Format this failure for delivery to the host.
    pub fn describe(&self) -> (r: String)
        ensures
            r@ == self.describe_spec(),
    {
        match self {
            Error::Jni { detail } => String::from_str("Jni error: ").concat(detail.as_str()),
            Error::Reqwest { detail } => String::from_str("Reqwest error: ").concat(
                detail.as_str(),
            ),
        }
    }
}

} // verus!
