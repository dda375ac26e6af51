//! The compiler's installation root and the standard-library source tree
//! under it: reading the root from the tool's answer, and deciding which
//! of the known source layouts is present.

use vstd::prelude::*;

use crate::errors::Error;
use crate::paths::{join, spec_join};
use crate::text::{spec_trim, trim};

verus! {

/// Path to the standard-library source tree.
#[derive(Debug)]
pub struct Src {
    pub(crate) path: String,
}

impl View for Src {
    type V = Seq<char>;

    closed spec fn view(&self) -> Seq<char> {
        self.path@
    }
}

impl Src {
    /// Builds the source-tree override from the environment's raw value,
    /// handed in together with its canonicalized form where the embedding
    /// application could canonicalize it; the raw path is kept unchanged
    /// where it could not.
    pub fn from_env(raw: Option<String>, canonical: Option<String>) -> (r: Option<Src>)
        ensures
            r is Some <==> raw is Some,
            canonical matches Some(c) ==> (raw is Some ==> (r matches Some(s) && s@ == c@)),
            raw matches Some(p) ==> (canonical is None ==> (r matches Some(s) && s@ == p@)),
    {
        match raw {
            None => None,
            Some(p) => match canonical {
                Some(c) => Some(Src { path: c }),
                None => Some(Src { path: p }),
            },
        }
    }

    /// The source tree's path.
    pub fn path(&self) -> (r: &str)
        ensures
            r@ == self@,
    {
        self.path.as_str()
    }
}

/// Path to the compiler's installation root.
#[derive(Debug)]
pub struct Sysroot {
    pub(crate) path: String,
}

impl View for Sysroot {
    type V = Seq<char>;

    closed spec fn view(&self) -> Seq<char> {
        self.path@
    }
}

/// Reads the installation root from the tool's `--print sysroot` answer:
/// the single line, trimmed of surrounding whitespace, taken as a path
/// with no existence check.
pub fn sysroot(output: &str) -> (r: Sysroot)
    ensures
        r@ == spec_trim(output@),
{
    Sysroot { path: trim(output) }
}

/// The root under which both known source layouts live.
pub open spec fn spec_src_root(sys: Seq<char>) -> Seq<char> {
    spec_join(spec_join(spec_join(spec_join(sys, "lib"@), "rustlib"@), "src"@), "rust"@)
}

/// The legacy layout's source root.
pub open spec fn spec_legacy_src(sys: Seq<char>) -> Seq<char> {
    spec_join(spec_src_root(sys), "src"@)
}

/// The modern layout's source root.
pub open spec fn spec_modern_src(sys: Seq<char>) -> Seq<char> {
    spec_join(spec_src_root(sys), "library"@)
}

/// The manifest whose presence confirms the legacy layout.
pub open spec fn spec_legacy_manifest(sys: Seq<char>) -> Seq<char> {
    spec_join(spec_join(spec_legacy_src(sys), "libstd"@), "Cargo.toml"@)
}

/// The manifest whose presence confirms the modern layout.
pub open spec fn spec_modern_manifest(sys: Seq<char>) -> Seq<char> {
    spec_join(spec_join(spec_modern_src(sys), "std"@), "Cargo.toml"@)
}

impl Sysroot {
    /// The installation root's path.
    pub fn path(&self) -> (r: &str)
        ensures
            r@ == self@,
    {
        self.path.as_str()
    }

    fn src_root(&self) -> (r: String)
        ensures
            r@ == spec_src_root(self@),
    {
        join(join(join(join(self.path.as_str(), "lib").as_str(), "rustlib").as_str(), "src").as_str(), "rust")
    }

    /// The manifest path whose presence confirms the legacy layout,
    /// for the embedding application to probe.
    pub fn legacy_manifest_path(&self) -> (r: String)
        ensures
            r@ == spec_legacy_manifest(self@),
    {
        join(join(join(self.src_root().as_str(), "src").as_str(), "libstd").as_str(), "Cargo.toml")
    }

    /// The manifest path whose presence confirms the modern layout,
    /// for the embedding application to probe.
    pub fn modern_manifest_path(&self) -> (r: String)
        ensures
            r@ == spec_modern_manifest(self@),
    {
        join(join(join(self.src_root().as_str(), "library").as_str(), "std").as_str(), "Cargo.toml")
    }

    /// Decides the source tree from the presence of the two confirmation
    /// manifests, as probed by the embedding application: the legacy
    /// layout wins where both are present, and where neither is, the
    /// source component is reported missing.
    pub fn src(&self, legacy_manifest: bool, modern_manifest: bool) -> (r: Result<Src, Error>)
        ensures
            legacy_manifest ==> (r matches Ok(s) && s@ == spec_legacy_src(self@)),
            !legacy_manifest && modern_manifest ==> (r matches Ok(s) && s@ == spec_modern_src(
                self@,
            )),
            !legacy_manifest && !modern_manifest ==> (r matches Err(e)
                && e is SourceComponentMissing),
    {
        if legacy_manifest {
            Ok(Src { path: join(self.src_root().as_str(), "src") })
        } else if modern_manifest {
            Ok(Src { path: join(self.src_root().as_str(), "library") })
        } else {
            Err(Error::SourceComponentMissing)
        }
    }
}

} // verus!
