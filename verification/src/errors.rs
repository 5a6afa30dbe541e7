//! The error taxonomy of a migration run.  Every filesystem operation that
//! can fail has its own kind, carrying the exact path it failed on, so that
//! a failed run reports the precise operation and place, never a generic
//! failure.

use vstd::prelude::*;
use vstd::string::StringExecFns;

verus! {

/// Why a migration run stopped.  Each variant names the operation that
/// failed and the path it failed on.
#[derive(Clone, Debug, PartialEq, Eq)]
pub enum MigrationError {
    /// The root could not be inspected to decide the current version.
    DetectionError { path: String },
    /// A directory of the new layout could not be created.
    CreateDirError { dir: String },
    /// The root's entries could not be listed for cleanup.
    ReadDirError { dir: String },
    /// A legacy artifact could not be deleted.
    DeleteFileError { file: String },
    /// The completion marker could not be written.
    CreateMarkerError { file: String },
}

/// The message text of each error kind: the operation, then the path.
pub open spec fn message_of(e: MigrationError) -> Seq<char> {
    match e {
        MigrationError::DetectionError { path } => "could not determine the current layout under "@
            + path@,
        MigrationError::CreateDirError { dir } => "could not create the layout directory "@ + dir@,
        MigrationError::ReadDirError { dir } => "could not read the contents of "@ + dir@,
        MigrationError::DeleteFileError { file } => "could not delete the obsolete file "@ + file@,
        MigrationError::CreateMarkerError { file } => "could not write the layout marker file "@
            + file@,
    }
}

impl MigrationError {
    /// An actionable description of the failure: exactly the operation and
    /// the path that [`message_of`] assigns to this error.
    pub fn message(&self) -> (m: String)
        ensures
            m@ == message_of(*self),
    {
        match self {
            MigrationError::DetectionError { path } => String::from_str(
                "could not determine the current layout under ",
            ).concat(path.as_str()),
            MigrationError::CreateDirError { dir } => String::from_str(
                "could not create the layout directory ",
            ).concat(dir.as_str()),
            MigrationError::ReadDirError { dir } => String::from_str(
                "could not read the contents of ",
            ).concat(dir.as_str()),
            MigrationError::DeleteFileError { file } => String::from_str(
                "could not delete the obsolete file ",
            ).concat(file.as_str()),
            MigrationError::CreateMarkerError { file } => String::from_str(
                "could not write the layout marker file ",
            ).concat(file.as_str()),
        }
    }
}

} // verus!
