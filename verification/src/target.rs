//! Resolving a requested triple to a target, and the stable hash
//! contribution of a resolved target.

use vstd::prelude::*;

use crate::errors::Error;
use crate::paths::{join, spec_join};
use crate::text::{line_views, spec_lines, split_lines};

verus! {

/// A resolved compilation target.
#[derive(Debug)]
pub enum Target {
    /// A triple the compiler knows natively; no file describes it.
    Builtin { triple: String },
    /// A triple described by a spec file on disk; `json` is that file's
    /// path and `triple` the name it was found under.
    Custom { json: String, triple: String },
}

/// Reads the native target catalog from the tool's `--print target-list`
/// answer: one triple per line, order kept, nothing deduplicated.
pub fn targets(output: &str) -> (r: Vec<String>)
    ensures
        line_views(r@) == spec_lines(output@),
{
    split_lines(output)
}

/// Whether the catalog holds the triple, by exact string equality.
pub open spec fn spec_in_catalog(catalog: Seq<String>, triple: Seq<char>) -> bool {
    exists|i: int| 0 <= i < catalog.len() && (#[trigger] catalog[i])@ == triple
}

fn in_catalog(catalog: &Vec<String>, triple: &str) -> (r: bool)
    ensures
        r == spec_in_catalog(catalog@, triple@),
{
    let t: String = triple.to_owned();
    let mut i: usize = 0;
    while i < catalog.len()
        invariant
            i <= catalog.len(),
            t@ == triple@,
            forall|j: int| 0 <= j < i ==> (#[trigger] catalog@[j])@ != triple@,
        decreases catalog.len() - i,
    {
        let c: &String = &catalog[i];
        if *c == t {
            return true;
        }
        i = i + 1;
    }
    false
}

/// The path of the `<triple>.json` file directly under a directory.
pub open spec fn spec_json_file(dir: Seq<char>, triple: Seq<char>) -> Seq<char> {
    spec_join(dir, triple + ".json"@)
}

fn json_file_in(dir: &str, triple: &str) -> (r: String)
    ensures
        r@ == spec_json_file(dir@, triple@),
{
    let mut name = triple.to_owned();
    name.append(".json");
    join(dir, name.as_str())
}

impl Target {
    /// The requested triple the target was resolved for.
    pub open spec fn spec_triple(&self) -> Seq<char> {
        match self {
            Target::Builtin { triple } => triple@,
            Target::Custom { triple, .. } => triple@,
        }
    }

    /// The path of the describing spec file, for a custom target.
    pub open spec fn spec_json(&self) -> Option<Seq<char>> {
        match self {
            Target::Builtin { .. } => None,
            Target::Custom { json, .. } => Some(json@),
        }
    }

    /// A target always carries a non-empty triple.
    pub open spec fn wf(&self) -> bool {
        self.spec_triple().len() > 0
    }

    /// Resolves a requested triple. The native catalog and the results of
    /// probing the two custom-spec locations are handed in by the
    /// embedding application: `root_has_spec` says whether
    /// `<root>/<triple>.json` exists, `search_has_spec` whether
    /// `<dir>/<triple>.json` exists under the environment's search
    /// directory `search_dir`. A catalog triple wins over any same-named
    /// custom file; a project-root file wins over the search directory;
    /// a triple found nowhere resolves to no target at all, which is not
    /// an error.
    pub fn new(
        triple: &str,
        catalog: &Vec<String>,
        root: &str,
        root_has_spec: bool,
        search_dir: Option<&str>,
        search_has_spec: bool,
    ) -> (r: Option<Target>)
        requires
            triple@.len() > 0,
        ensures
            spec_in_catalog(catalog@, triple@) ==> (r matches Some(t) && t is Builtin
                && t.spec_triple() == triple@),
            !spec_in_catalog(catalog@, triple@) && root_has_spec ==> (r matches Some(t)
                && t is Custom && t.spec_triple() == triple@ && t.spec_json() == Some(
                spec_json_file(root@, triple@),
            )),
            search_dir matches Some(d) ==> (!spec_in_catalog(catalog@, triple@) && !root_has_spec
                && search_has_spec ==> (r matches Some(t) && t is Custom && t.spec_triple()
                == triple@ && t.spec_json() == Some(spec_json_file(d@, triple@)))),
            !spec_in_catalog(catalog@, triple@) && !root_has_spec && (search_dir is None
                || !search_has_spec) ==> r is None,
            r matches Some(t) ==> t.wf(),
    {
        if in_catalog(catalog, triple) {
            Some(Target::Builtin { triple: triple.to_owned() })
        } else if root_has_spec {
            Some(Target::Custom { json: json_file_in(root, triple), triple: triple.to_owned() })
        } else {
            match search_dir {
                Some(d) => {
                    if search_has_spec {
                        Some(
                            Target::Custom {
                                json: json_file_in(d, triple),
                                triple: triple.to_owned(),
                            },
                        )
                    } else {
                        None
                    }
                },
                None => None,
            }
        }
    }

    /// The triple, for either variant.
    pub fn triple(&self) -> (r: &str)
        ensures
            r@ == self.spec_triple(),
    {
        match self {
            Target::Builtin { triple } => triple.as_str(),
            Target::Custom { triple, .. } => triple.as_str(),
        }
    }
}

/// The canonical form of a JSON text: the result of parsing it and
/// serializing the parsed value back compactly, or nothing where the text
/// does not parse. A function of the text alone.
pub uninterp spec fn json_canonical(text: Seq<char>) -> Option<Seq<char>>;

/// Relies on serde_json::from_str::<Value> and on Value's compact
/// serialization: parsing fails exactly where the text is not valid JSON,
/// and parse followed by serialize depends on the text alone.
#[verifier::external_body]
fn canonicalize_json(text: &str) -> (r: Option<String>)
    ensures
        r matches Some(c) ==> json_canonical(text@) == Some(c@),
        r is None ==> json_canonical(text@) is None,
{
    match serde_json::from_str::<serde_json::Value>(text) {
        Ok(v) => Some(v.to_string()),
        Err(_) => None,
    }
}

/// The hash contribution of a target, given the text of its spec file:
/// empty for a builtin target whatever the text, the canonical form of
/// the text for a custom one, and nothing where that text does not parse.
pub open spec fn spec_hash(t: Target, text: Seq<char>) -> Option<Seq<char>> {
    match t {
        Target::Builtin { .. } => Some(Seq::empty()),
        Target::Custom { .. } => json_canonical(text),
    }
}

impl Target {
    /// The stable byte sequence this target contributes to a cache key.
    /// A builtin target contributes nothing, whatever `spec_text` holds:
    /// the compiler-embedded definition needs no fingerprinting. A custom
    /// target contributes the canonical form of its spec file's text,
    /// which the embedding application reads and hands in; two texts that
    /// parse to the same structure contribute the same bytes. Where the
    /// text does not parse, the spec file's path is reported.
    pub fn hash(&self, spec_text: &str) -> (r: Result<String, Error>)
        ensures
            match spec_hash(*self, spec_text@) {
                Some(c) => r matches Ok(h) && h@ == c,
                None => r matches Err(e) && (e matches Error::InvalidSpecJson { json }
                    && Some(json@) == self.spec_json()),
            },
    {
        match self {
            Target::Builtin { .. } => Ok(String::new()),
            Target::Custom { json, .. } => match canonicalize_json(spec_text) {
                Some(c) => Ok(c),
                None => Err(Error::InvalidSpecJson { json: json.clone() }),
            },
        }
    }
}

/// Any two builtin targets contribute the same, empty, bytes to a hash,
/// whatever their triples and whatever spec texts are supplied.
pub proof fn lemma_builtin_hash_uniform(t1: Target, t2: Target, text1: Seq<char>, text2: Seq<char>)
    requires
        t1 is Builtin,
        t2 is Builtin,
    ensures
        spec_hash(t1, text1) == spec_hash(t2, text2),
        spec_hash(t1, text1) == Some(Seq::<char>::empty()),
{
}

} // verus!
