//! What can go wrong in a request, with the context a caller needs to
//! decide what to do about it.
use vstd::prelude::*;

verus! {

/// The reasons a request fails. Each carries the path it was about and,
/// where the host reported one, the host's own description of the failure.
#[derive(Debug, Clone)]
pub enum WorkspaceError {
    /// The workspace root does not exist.
    RootNotFound { root: String },
    /// The path the request names does not exist.
    FileNotFound { path: String },
    /// The file, or for a listing the directory, could not be read.
    ReadError { path: String, detail: String },
    /// The file could not be written.
    WriteError { path: String, detail: String },
    /// The directories that should hold a file could not be created.
    DirCreateError { dir: String, detail: String },
    /// The file or directory could not be removed.
    DeleteError { path: String, detail: String },
    /// A listed entry's metadata could not be read.
    MetadataError { path: String, detail: String },
}

/// The text of `a` followed by that of `b`.
fn concat2(a: &str, b: &str) -> (r: String)
    ensures
        r@ == a@ + b@,
{
    let mut out = String::from_str(a);
    out.append(b);
    out
}

/// The text of `a`, `b`, `c` and `d` in turn.
fn concat4(a: &str, b: &str, c: &str, d: &str) -> (r: String)
    ensures
        r@ == a@ + b@ + c@ + d@,
{
    let mut out = String::from_str(a);
    out.append(b);
    out.append(c);
    out.append(d);
    out
}

impl WorkspaceError {
    /// The message shown to a person for this error.
    pub open spec fn message_of(&self) -> Seq<char> {
        match self {
            WorkspaceError::RootNotFound { root } => "Workspace base path not found: "@ + root@,
            WorkspaceError::FileNotFound { path } => "File not found: "@ + path@,
            WorkspaceError::ReadError { path, detail } => "Failed to read "@ + path@ + ": "@
                + detail@,
            WorkspaceError::WriteError { path, detail } => "Failed to write "@ + path@ + ": "@
                + detail@,
            WorkspaceError::DirCreateError { dir, detail } => "Failed to create directory "@
                + dir@ + ": "@ + detail@,
            WorkspaceError::DeleteError { path, detail } => "Failed to delete "@ + path@ + ": "@
                + detail@,
            WorkspaceError::MetadataError { path, detail } => "Failed to read metadata of "@
                + path@ + ": "@ + detail@,
        }
    }

    /// The message shown to a person for this error.
    pub fn message(&self) -> (r: String)
        ensures
            r@ == self.message_of(),
    {
        match self {
            WorkspaceError::RootNotFound { root } => concat2("Workspace base path not found: ", root.as_str()),
            WorkspaceError::FileNotFound { path } => concat2("File not found: ", path.as_str()),
            WorkspaceError::ReadError { path, detail } => concat4(
                "Failed to read ",
                path.as_str(),
                ": ",
                detail.as_str(),
            ),
            WorkspaceError::WriteError { path, detail } => concat4(
                "Failed to write ",
                path.as_str(),
                ": ",
                detail.as_str(),
            ),
            WorkspaceError::DirCreateError { dir, detail } => concat4(
                "Failed to create directory ",
                dir.as_str(),
                ": ",
                detail.as_str(),
            ),
            WorkspaceError::DeleteError { path, detail } => concat4(
                "Failed to delete ",
                path.as_str(),
                ": ",
                detail.as_str(),
            ),
            WorkspaceError::MetadataError { path, detail } => concat4(
                "Failed to read metadata of ",
                path.as_str(),
                ": ",
                detail.as_str(),
            ),
        }
    }
}

} // verus!
