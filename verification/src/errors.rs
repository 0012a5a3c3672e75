//! The failure kinds of statement construction.  Every error is terminal for
//! the invocation: the caller reports it and exits without issuing a
//! database call.

use vstd::prelude::*;
use vstd::string::StringExecFns;

verus! {

/// Spec-level image of [`BuildError`], carrying the names it reports as
/// character sequences.
pub ghost enum ErrSpec {
    /// Remote URL fetch requested for inspection purposes.
    UnsupportedOperation,
    /// Invalid base64 or invalid UTF-8 while unpacking a source.
    DecodeError,
    /// Aggregate without manual hooks and without a WIT source.
    MissingConfiguration,
    /// A required lifecycle hook is absent; the payload names the role.
    MissingRequiredHook(Seq<char>),
    /// Exactly one of serialize/deserialize is present.
    InconsistentHookPairing,
    /// Two WIT declarations matched the same role: the new candidate name and
    /// the previously stored method name.
    AmbiguousMemberFunction(Seq<char>, Seq<char>),
    /// More than 26 aggregate argument types.
    TooManyArguments,
}

/// Why a statement could not be built.
#[derive(Debug)]
pub enum BuildError {
    /// Remote URL fetch requested for inspection purposes.
    UnsupportedOperation,
    /// Invalid base64 or invalid UTF-8 while unpacking a source.
    DecodeError,
    /// Aggregate without manual hooks and without a WIT source.
    MissingConfiguration,
    /// A required lifecycle hook is absent; the payload names the role.
    MissingRequiredHook(String),
    /// Exactly one of serialize/deserialize is present.
    InconsistentHookPairing,
    /// Two WIT declarations matched the same role: the new candidate name and
    /// the previously stored method name.
    AmbiguousMemberFunction(String, String),
    /// More than 26 aggregate argument types.
    TooManyArguments,
}

/// The one-line message reported for each failure kind.
pub open spec fn spec_message(e: ErrSpec) -> Seq<char> {
    match e {
        ErrSpec::UnsupportedOperation => "downloading from a URL is not supported"@,
        ErrSpec::DecodeError => "invalid base64 or invalid UTF-8 in import source"@,
        ErrSpec::MissingConfiguration =>
            "cannot auto-detect functions without a WIT source; specify one or name the functions manually"@,
        ErrSpec::MissingRequiredHook(role) => "aggregate functions require a "@ + role
            + " function"@,
        ErrSpec::InconsistentHookPairing =>
            "aggregate functions require both serialize and deserialize functions"@,
        ErrSpec::AmbiguousMemberFunction(new_name, prev) =>
            "duplicate match for function name: "@ + new_name + " vs "@ + prev,
        ErrSpec::TooManyArguments => "too many arguments for an aggregate function; maximum is 26"@,
    }
}

impl BuildError {
    /// The one-line, human-readable description of this failure.
    pub fn message(&self) -> (r: String)
        ensures
            r@ == spec_message(self@),
    {
        match self {
            BuildError::UnsupportedOperation => String::from_str(
                "downloading from a URL is not supported",
            ),
            BuildError::DecodeError => String::from_str(
                "invalid base64 or invalid UTF-8 in import source",
            ),
            BuildError::MissingConfiguration => String::from_str(
                "cannot auto-detect functions without a WIT source; specify one or name the functions manually",
            ),
            BuildError::MissingRequiredHook(role) => {
                let mut m = String::from_str("aggregate functions require a ");
                m.append(role.as_str());
                m.append(" function");
                m
            },
            BuildError::InconsistentHookPairing => String::from_str(
                "aggregate functions require both serialize and deserialize functions",
            ),
            BuildError::AmbiguousMemberFunction(new_name, prev) => {
                let mut m = String::from_str("duplicate match for function name: ");
                m.append(new_name.as_str());
                m.append(" vs ");
                m.append(prev.as_str());
                m
            },
            BuildError::TooManyArguments => String::from_str(
                "too many arguments for an aggregate function; maximum is 26",
            ),
        }
    }
}

impl View for BuildError {
    type V = ErrSpec;

    open spec fn view(&self) -> ErrSpec {
        match self {
            BuildError::UnsupportedOperation => ErrSpec::UnsupportedOperation,
            BuildError::DecodeError => ErrSpec::DecodeError,
            BuildError::MissingConfiguration => ErrSpec::MissingConfiguration,
            BuildError::MissingRequiredHook(role) => ErrSpec::MissingRequiredHook(role@),
            BuildError::InconsistentHookPairing => ErrSpec::InconsistentHookPairing,
            BuildError::AmbiguousMemberFunction(new_name, prev) => ErrSpec::AmbiguousMemberFunction(
                new_name@,
                prev@,
            ),
            BuildError::TooManyArguments => ErrSpec::TooManyArguments,
        }
    }
}

} // verus!
