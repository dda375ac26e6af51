//! The ways resolution can fail that this library decides itself; failures
//! of the external tool stay with the embedding application.

use vstd::prelude::*;

verus! {

/// A failure decided by the library's own rules.
#[derive(Debug)]
pub enum Error {
    /// Neither known standard-library source layout is present under the
    /// sysroot.
    SourceComponentMissing,
    /// A custom target spec file did not parse as JSON; carries the
    /// file's path.
    InvalidSpecJson { json: String },
}

impl Error {
    /// The human-readable description: a remediation hint for the missing
    /// source component, the offending path for a bad spec file.
    pub fn message(&self) -> (r: String)
        ensures
            self is SourceComponentMissing ==> r@ == "`rust-src` component not found. Run `rustup component add rust-src`."@,
            self matches Error::InvalidSpecJson { json } ==> r@ == json@ + " is not valid JSON"@,
    {
        match self {
            Error::SourceComponentMissing => {
                "`rust-src` component not found. Run `rustup component add rust-src`.".to_owned()
            },
            Error::InvalidSpecJson { json } => {
                let mut s = json.clone();
                s.append(" is not valid JSON");
                s
            },
        }
    }
}

} // verus!
