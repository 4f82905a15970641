//! The two ways a resolution can fail: a broken explicit override, or no
//! usable candidate anywhere.

use vstd::prelude::*;
use vstd::string::StringExecFns;

verus! {

/// Why a resolution failed.
///
/// An override variable that is set but does not validate is a hard
/// configuration error of its own; it is never softened into a generic
/// not-found failure.
#[derive(Debug)]
pub enum ResolveError {
    /// The override variable named here was set, but its value did not
    /// validate as a runnable executable.
    EnvVarInvalid { var: String },
    /// No override was set, and neither the bare name nor the fallback
    /// path validated. Carries the executable name and the override
    /// variable name, so the message can point at both remedies.
    NotFound { name: String, var: String },
}

impl ResolveError {
    /// The characters of the human-readable message for this error.
    pub open spec fn spec_message(self) -> Seq<char> {
        match self {
            ResolveError::EnvVarInvalid { var } => "`"@ + var@
                + "` environment variable points to something that's not a valid executable"@,
            ResolveError::NotFound { name, var } => "Failed to find `"@ + name@
                + "` executable. Make sure `"@ + name@ + "` is in `$PATH`, or set `$"@ + var@
                + "` to point to a valid executable."@,
        }
    }

    /// Renders the error for the user: which override variable is broken,
    /// or which executable is missing and both remedies for that.
    pub fn message(&self) -> (r: String)
        ensures
            r@ == self.spec_message(),
    {
        match self {
            ResolveError::EnvVarInvalid { var } => {
                let mut m = String::new();
                m.append("`");
                m.append(var.as_str());
                m.append("` environment variable points to something that's not a valid executable");
                proof {
                    assert(m@ =~= self.spec_message());
                }
                m
            },
            ResolveError::NotFound { name, var } => {
                let mut m = String::new();
                m.append("Failed to find `");
                m.append(name.as_str());
                m.append("` executable. Make sure `");
                m.append(name.as_str());
                m.append("` is in `$PATH`, or set `$");
                m.append(var.as_str());
                m.append("` to point to a valid executable.");
                proof {
                    assert(m@ =~= self.spec_message());
                }
                m
            },
        }
    }
}

} // verus!
