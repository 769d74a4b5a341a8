//! From a request path to a script that may be run.
//!
//! The work is done in two steps with a look at the file system between
//! them, which the caller takes. `locate` decodes and cleans the request
//! path and puts it below the root. The caller resolves that path and
//! reports what it found in a `FileProbe`. `accept` then accepts the file or
//! says why not.

use crate::decode::{outcome_view, percent_decode, percent_decoded};
use crate::path::{clean_path, path_clean};
use crate::sandbox::{candidate, within, SandboxRoot};
use crate::sandbox_laws::lemma_clean_path_confined;
use vstd::prelude::*;

verus! {

/// Why a request path names no script that may be run.
#[derive(Debug, PartialEq, Eq)]
pub enum SanitizeError {
    /// The path is not the percent-encoding of a text. What the decoder
    /// said of it is kept.
    DecodeError(String),
    /// The file lies outside the root.
    PathEscape,
    /// There is no regular file at the path.
    NotFound,
    /// The file may not be executed.
    NotExecutable,
}

/// Whether a file with these permission bits may be executed: by its owner,
/// by its group or by anyone else.
pub fn may_execute(mode: u32) -> (yes: bool)
    ensures
        yes == (mode & 0o111 != 0),
{
    mode & 0o111 != 0
}

/// What the caller found at a candidate path.
#[derive(Debug)]
pub struct FileProbe {
    /// The path with every link in it resolved, or `None` where nothing
    /// exists at the candidate path.
    pub resolved: Option<String>,
    /// Whether a regular file is there.
    pub is_file: bool,
    /// Whether the file may be executed.
    pub executable: bool,
}

/// The path of a script that was found to lie in its root.
pub struct ResolvedScriptPath {
    root: Ghost<Seq<char>>,
    path: String,
}

impl View for ResolvedScriptPath {
    type V = Seq<char>;

    closed spec fn view(&self) -> Seq<char> {
        self.path@
    }
}

impl ResolvedScriptPath {
    #[verifier::type_invariant]
    spec fn confined(self) -> bool {
        within(self.root@, self.path@)
    }

    /// The root that the path was found in.
    pub closed spec fn root(&self) -> Seq<char> {
        self.root@
    }

    /// The path, which lies in `root()`.
    pub fn as_str(&self) -> (path: &str)
        ensures
            path@ == self@,
            within(self.root(), self@),
    {
        proof {
            use_type_invariant(self);
        }
        self.path.as_str()
    }
}

/// Whether `found` is what is made of a request path that the decoder made
/// `decoded` of: the cleaned text below `root`, or `DecodeError` with what
/// the decoder said.
pub open spec fn is_located(
    found: Result<String, SanitizeError>,
    root: Seq<char>,
    decoded: Result<Seq<char>, Seq<char>>,
) -> bool {
    match decoded {
        Ok(text) => found matches Ok(path) && path@ == candidate(root, clean_path(text)),
        Err(reason) => found matches Err(SanitizeError::DecodeError(said)) && said@ == reason,
    }
}

/// What is made of a probe: the resolved path where it names an executable
/// regular file in `root`, and otherwise the first of these that holds:
/// nothing is there, what is there lies outside `root`, it is no regular
/// file, it may not be executed.
pub open spec fn verdict(root: Seq<char>, probe: FileProbe) -> Result<Seq<char>, SanitizeError> {
    match probe.resolved {
        None => Err(SanitizeError::NotFound),
        Some(path) => if !within(root, path@) {
            Err(SanitizeError::PathEscape)
        } else if !probe.is_file {
            Err(SanitizeError::NotFound)
        } else if !probe.executable {
            Err(SanitizeError::NotExecutable)
        } else {
            Ok(path@)
        },
    }
}

/// The candidate path for a request path that has been through the decoder:
/// the cleaned text below `root`, or `DecodeError` where decoding failed.
pub fn locate_decoded(root: &SandboxRoot, decoded: Result<String, String>) -> (found: Result<
    String,
    SanitizeError,
>)
    ensures
        is_located(found, root@, outcome_view(decoded)),
        found matches Ok(path) ==> within(root@, path@),
{
    match decoded {
        Ok(text) => {
            let cleaned = path_clean(text.as_str());
            proof {
                lemma_clean_path_confined(root@, text@);
            }
            Ok(root.candidate(cleaned.as_str()))
        },
        Err(reason) => Err(SanitizeError::DecodeError(reason)),
    }
}

/// The candidate path for a request path as it came in: the path is
/// percent-decoded, cleaned and put below `root`.
///
/// It fails with `DecodeError` exactly where the decoder does, which it
/// never does on a path without `%`.
pub fn locate(root: &SandboxRoot, request_path: &str) -> (found: Result<String, SanitizeError>)
    ensures
        is_located(found, root@, percent_decoded(request_path@)),
        found matches Ok(path) ==> within(root@, path@),
        !request_path@.contains('%') ==> is_located(
            found,
            root@,
            Ok::<Seq<char>, Seq<char>>(request_path@),
        ),
{
    let decoded = percent_decode(request_path);
    locate_decoded(root, decoded)
}

/// Accepts or refuses what was found at a candidate path.
///
/// The script is accepted where something exists there, its resolved path
/// lies in `root`, it is a regular file and it may be executed. Otherwise
/// the error says which of these failed first, in that order.
pub fn accept(root: &SandboxRoot, probe: FileProbe) -> (script: Result<
    ResolvedScriptPath,
    SanitizeError,
>)
    ensures
        match verdict(root@, probe) {
            Ok(path) => script matches Ok(resolved) && resolved@ == path && resolved.root()
                == root@,
            Err(error) => script matches Err(e) && e == error,
        },
        script is Ok ==> probe.resolved is Some && within(root@, probe.resolved->0@),
        probe.resolved is None ==> (script matches Err(e) && e == SanitizeError::NotFound),
        probe.resolved is Some && !within(root@, probe.resolved->0@) ==> (script matches Err(e)
            && e == SanitizeError::PathEscape),
{
    match probe.resolved {
        None => Err(SanitizeError::NotFound),
        Some(path) => {
            if !root.contains(path.as_str()) {
                Err(SanitizeError::PathEscape)
            } else if !probe.is_file {
                Err(SanitizeError::NotFound)
            } else if !probe.executable {
                Err(SanitizeError::NotExecutable)
            } else {
                Ok(ResolvedScriptPath { root: Ghost(root@), path })
            }
        },
    }
}

} // verus!
