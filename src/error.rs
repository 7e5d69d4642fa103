//! The errors that end a report, and their diagnostics.
use vstd::prelude::*;
use vstd::string::*;

verus! {

/// The phase of loading from a registry that failed.
#[derive(Debug, PartialEq, Eq)]
pub enum LoadPhase {
    /// Setting up the registry client.
    Client,
    /// Fetching and decoding the application.
    Load,
}

/// Why a report could not be produced.
#[derive(Debug, PartialEq, Eq)]
pub enum InfoError {
    /// No usable source was determined; the diagnostic for the user.
    Unresolvable(String),
    /// No source string was given at all.
    NoSource,
    /// A local manifest was selected; reports on those are not supported yet.
    LocalUnsupported(String),
    /// The registry loader failed for `reference`.
    LoadFailed { reference: String, phase: LoadPhase, cause: String },
    /// The application metadata has no `name`.
    MissingName,
    /// The application metadata has no `version`.
    MissingVersion,
    /// The application metadata has `authors`, but not as a list of strings.
    AuthorsNotStrings,
    /// A component has `build` metadata without a `command`.
    BuildWithoutCommand(String),
    /// A component, or one of its mounted file sets, has no source URI.
    MissingSource(String),
    /// A source URI that is not a `file://` URI.
    NotFileUri(String),
}

pub open spec fn phase_text(p: LoadPhase) -> Seq<char> {
    match p {
        LoadPhase::Client => "cannot create registry client"@,
        LoadPhase::Load => "cannot load application"@,
    }
}

/// The one-line diagnostic for each error.
pub open spec fn error_text(e: InfoError) -> Seq<char> {
    match e {
        InfoError::Unresolvable(m) => m@,
        InfoError::NoSource => "No application source was specified"@,
        InfoError::LocalUnsupported(p) => "Printing information about a local application is not supported yet: "@ + p@,
        InfoError::LoadFailed { reference, phase, cause } => phase_text(phase) + " for '"@ + reference@ + "': "@ + cause@,
        InfoError::MissingName => "malformed manifest: application metadata has no `name`"@,
        InfoError::MissingVersion => "malformed manifest: application metadata has no `version`"@,
        InfoError::AuthorsNotStrings => "malformed manifest: application `authors` is not a list of strings"@,
        InfoError::BuildWithoutCommand(id) => "malformed manifest: component '"@ + id@ + "' has `build` without `command`"@,
        InfoError::MissingSource(id) => "component '"@ + id@ + "' has a content item without a source"@,
        InfoError::NotFileUri(u) => "expected a file URI, found '"@ + u@ + "'"@,
    }
}

impl InfoError {
    /// The diagnostic shown to the user.
    pub fn message(&self) -> (r: String)
        ensures
            r@ == error_text(*self),
    {
        match self {
            InfoError::Unresolvable(m) => m.clone(),
            InfoError::NoSource => String::from_str("No application source was specified"),
            InfoError::LocalUnsupported(p) => String::from_str(
                "Printing information about a local application is not supported yet: ",
            ).concat(p.as_str()),
            InfoError::LoadFailed { reference, phase, cause } => {
                let head = match phase {
                    LoadPhase::Client => String::from_str("cannot create registry client"),
                    LoadPhase::Load => String::from_str("cannot load application"),
                };
                head.concat(" for '").concat(reference.as_str()).concat("': ").concat(cause.as_str())
            },
            InfoError::MissingName => String::from_str(
                "malformed manifest: application metadata has no `name`",
            ),
            InfoError::MissingVersion => String::from_str(
                "malformed manifest: application metadata has no `version`",
            ),
            InfoError::AuthorsNotStrings => String::from_str(
                "malformed manifest: application `authors` is not a list of strings",
            ),
            InfoError::BuildWithoutCommand(id) => String::from_str(
                "malformed manifest: component '",
            ).concat(id.as_str()).concat("' has `build` without `command`"),
            InfoError::MissingSource(id) => String::from_str("component '").concat(
                id.as_str(),
            ).concat("' has a content item without a source"),
            InfoError::NotFileUri(u) => String::from_str("expected a file URI, found '").concat(
                u.as_str(),
            ).concat("'"),
        }
    }

    /// The error for a failed registry load of `reference`.
    pub fn load_failed(reference: &str, phase: LoadPhase, cause: String) -> (r: InfoError)
        ensures
            r matches InfoError::LoadFailed { reference: rr, phase: p, cause: c } && rr@
                == reference@ && p == phase && c@ == cause@,
    {
        InfoError::LoadFailed { reference: reference.to_owned(), phase, cause }
    }
}

} // verus!
