//! The runtime environment the application was asked to run as. Reading
//! and deserializing the configuration files is the shell's work; the
//! environment name's interpretation is decided here.

use vstd::prelude::*;
use vstd::string::*;

verus! {

/// The possible runtime environments for the application.
#[derive(Debug, PartialEq, Eq, Structural, Clone, Copy)]
pub enum Environment {
    Local,
    Production,
}

/// What `str::to_lowercase` yields: the Unicode lowercase mapping, a
/// function of the characters alone.
pub uninterp spec fn lowered_of(s: Seq<char>) -> Seq<char>;

/// Relies on std's `str::to_lowercase`: the result depends on the
/// characters alone.
#[verifier::external_body]
fn to_lowercase(s: &str) -> (r: String)
    ensures
        r@ == lowered_of(s@),
{
    s.to_lowercase()
}

impl Environment {
    /// The configuration-file name for this environment.
    pub fn as_str(&self) -> (r: &'static str)
        ensures
            r@ == match self {
                Environment::Local => "local"@,
                Environment::Production => "production"@,
            },
    {
        match self {
            Environment::Local => "local",
            Environment::Production => "production",
        }
    }

    /// Reads an environment name, case-insensitively: anything whose
    /// lowercase form is neither `local` nor `production` is rejected,
    /// with a message naming what was seen.
    pub fn try_from(value: String) -> (r: Result<Environment, String>)
        ensures
            ({
                let lowered = lowered_of(value@);
                if lowered == "local"@ {
                    r == Ok::<Environment, String>(Environment::Local)
                } else if lowered == "production"@ {
                    r == Ok::<Environment, String>(Environment::Production)
                } else {
                    r matches Err(msg) && msg@ == lowered
                        + " is not a supported environment. Use either 'local' or 'production'."@
                }
            }),
    {
        let lowered = to_lowercase(value.as_str());
        if lowered == String::from_str("local") {
            Ok(Environment::Local)
        } else if lowered == String::from_str("production") {
            Ok(Environment::Production)
        } else {
            Err(
                lowered.concat(
                    " is not a supported environment. Use either 'local' or 'production'.",
                ),
            )
        }
    }
}

} // verus!
