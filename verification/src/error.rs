use vstd::prelude::*;
use vstd::string::StringExecFns;

use crate::text::{decimal, decimal_text, lossy, lossy_text};

verus! {

/// An argument could not be passed to the compiler because it contains an
/// interior NUL byte. `arg` holds the offending argument's bytes.
#[derive(Debug, PartialEq, Eq)]
pub struct NulArgError {
    pub arg: Vec<u8>,
}

/// A `madura` invocation could not reach the compiler.
#[derive(Debug, PartialEq, Eq)]
pub enum InvokeError {
    /// An argument carried an interior NUL byte.
    NulArg(NulArgError),
    /// The shipped platform image (`<root>/lib/modules`) was not found
    /// relative to the running binary, whose path bytes are `exe` when known.
    NoPlatformImage { exe: Option<Vec<u8>> },
    /// Creating or attaching to the isolate failed with the given code.
    IsolateInit(i32),
}

/// Process exit code for a failure: a NUL argument is a caller mistake (1);
/// a missing platform image or an isolate failure is an environment problem (2).
pub open spec fn spec_exit_code(err: InvokeError) -> i32 {
    match err {
        InvokeError::NulArg(_) => 1,
        _ => 2,
    }
}

/// The message of an environment failure: a missing platform image names
/// where it was expected and the binary it was looked up from (`<unknown>`
/// when that path is unknown); an isolate failure gives its code. A NUL
/// argument is a caller mistake, shown with the argument itself, and has no
/// environment message.
pub open spec fn spec_environment_message(err: InvokeError) -> Option<Seq<char>> {
    match err {
        InvokeError::NulArg(_) => None,
        InvokeError::NoPlatformImage { exe } => Some(
            "cannot locate the shipped platform image at <root>/lib/modules (binary: "@ + match exe {
                Some(p) => lossy_text(p@),
                None => "<unknown>"@,
            } + ")"@,
        ),
        InvokeError::IsolateInit(code) => Some(
            "failed to create the GraalVM isolate (code "@ + decimal_text(code as int) + ")"@,
        ),
    }
}

impl InvokeError {
    /// The message of an environment failure (see [`spec_environment_message`]);
    /// `None` for a NUL argument.
    pub fn environment_message(&self) -> (m: Option<String>)
        ensures
            (*self is NulArg) <==> m is None,
            m matches Some(s) ==> Some(s@) == spec_environment_message(*self),
    {
        match self {
            InvokeError::NulArg(_) => None,
            InvokeError::NoPlatformImage { exe } => {
                let mut m = String::from_str(
                    "cannot locate the shipped platform image at <root>/lib/modules (binary: ",
                );
                match exe {
                    Some(p) => {
                        let shown = lossy(p.as_slice());
                        m.append(shown.as_str());
                    },
                    None => {
                        m.append("<unknown>");
                    },
                }
                m.append(")");
                Some(m)
            },
            InvokeError::IsolateInit(code) => {
                let mut m = String::from_str("failed to create the GraalVM isolate (code ");
                let digits = decimal(*code);
                m.append(digits.as_str());
                m.append(")");
                Some(m)
            },
        }
    }

    /// Process exit code for this failure (see [`spec_exit_code`]).
    pub fn exit_code(&self) -> (code: i32)
        ensures
            code == spec_exit_code(*self),
    {
        match self {
            InvokeError::NulArg(_) => 1,
            _ => 2,
        }
    }
}

impl From<NulArgError> for InvokeError {
    fn from(err: NulArgError) -> (res: Self) {
        InvokeError::NulArg(err)
    }
}

impl vstd::std_specs::convert::FromSpecImpl<NulArgError> for InvokeError {
    open spec fn obeys_from_spec() -> bool {
        true
    }

    open spec fn from_spec(err: NulArgError) -> Self {
        InvokeError::NulArg(err)
    }
}

} // verus!
