//! Where an application lives: a local manifest, a registry reference, or
//! nowhere that can be used.
use vstd::prelude::*;
use vstd::string::*;

verus! {

/// A source from which an application may be loaded.
#[derive(Debug, PartialEq, Eq)]
pub enum AppSource {
    /// A manifest file on the local filesystem.
    File(String),
    /// A reference to an artifact in a remote registry.
    OciRegistry(String),
    /// No usable source: the reason, for the user.
    Unresolvable(String),
    /// No source string was given.
    Unspecified,
}

/// What the local filesystem says about a source string taken as a path.
#[derive(Debug, PartialEq, Eq)]
pub enum LocalProbe {
    /// Nothing exists at that path.
    Missing,
    /// Something exists there, and this is the manifest file it resolves to.
    Resolved(String),
    /// Something exists there, but no manifest file could be found from it.
    Failed(String),
}

pub open spec fn not_found_text(source: Seq<char>) -> Seq<char> {
    "File or directory '"@ + source
        + "' not found. If you meant to load from a registry, use the `--from-registry` option."@
}

/// The diagnostic given when a source is neither a local path nor
/// shaped like a registry reference.
pub fn not_found_message(source: &str) -> (r: String)
    ensures
        r@ == not_found_text(source@),
{
    let r = String::from_str("File or directory '");
    let r = r.concat(source);
    r.concat("' not found. If you meant to load from a registry, use the `--from-registry` option.")
}

/// Relies on std::path::Path::parent: the directory holding the path, as
/// text; none for the empty path (and for a root or a bare prefix).
#[verifier::external_body]
fn path_parent(p: &str) -> (r: Option<String>)
    ensures
        r is Some <==> parent_of(p@) is Some,
        r is Some ==> r->Some_0@ == parent_of(p@)->Some_0,
        p@.len() == 0 ==> r is None,
{
    match std::path::Path::new(p).parent() {
        Some(q) => Some(q.to_string_lossy().into_owned()),
        None => None,
    }
}

/// The parent directory that `Path::parent` gives for a path.
pub uninterp spec fn parent_of(p: Seq<char>) -> Option<Seq<char>>;

impl AppSource {
    /// Classifies a source string. `local` is what the filesystem says of
    /// it taken as a path; `registry_shaped` says whether the string has
    /// the shape of a registry reference. An existing path always wins.
    pub fn infer_source(source: &str, local: LocalProbe, registry_shaped: bool) -> (r: Self)
        ensures
            local is Resolved ==> (r matches AppSource::File(f) && f@ == local->Resolved_0@),
            local is Failed ==> (r matches AppSource::Unresolvable(m) && m@
                == local->Failed_0@),
            (local is Missing && registry_shaped) ==> (r matches AppSource::OciRegistry(s)
                && s@ == source@),
            (local is Missing && !registry_shaped) ==> (r matches AppSource::Unresolvable(m)
                && m@ == not_found_text(source@)),
    {
        match local {
            LocalProbe::Missing => {
                if registry_shaped {
                    AppSource::OciRegistry(source.to_owned())
                } else {
                    AppSource::Unresolvable(not_found_message(source))
                }
            },
            LocalProbe::Resolved(file) => Self::infer_file_source(Ok(file)),
            LocalProbe::Failed(reason) => Self::infer_file_source(Err(reason)),
        }
    }

    /// The source for an existing path, given the outcome of looking for
    /// its manifest file.
    pub fn infer_file_source(resolved: Result<String, String>) -> (r: Self)
        ensures
            resolved is Ok ==> (r matches AppSource::File(f) && f@ == resolved->Ok_0@),
            resolved is Err ==> (r matches AppSource::Unresolvable(m) && m@
                == resolved->Err_0@),
    {
        match resolved {
            Ok(file) => AppSource::File(file),
            Err(e) => AppSource::Unresolvable(e),
        }
    }

    pub fn unresolvable(message: String) -> (r: Self)
        ensures
            r matches AppSource::Unresolvable(m) && m@ == message@,
    {
        AppSource::Unresolvable(message)
    }

    /// The directory of a local manifest file; none for other sources.
    pub fn local_app_dir(&self) -> (r: Option<String>)
        ensures
            self is File ==> (r is Some <==> parent_of(self->File_0@) is Some),
            self is File && r is Some ==> r->Some_0@ == parent_of(self->File_0@)->Some_0,
            !(self is File) ==> r is None,
    {
        match self {
            AppSource::File(path) => path_parent(path.as_str()),
            _ => None,
        }
    }
}

} // verus!
