//! The version detector: from one read-only observation of the installation
//! root, decide which layout version is present.  The highest version whose
//! marker is present wins; a root that is absent or entirely empty holds no
//! installation at all.

use vstd::prelude::*;
use crate::dir::DirContents;
use crate::dir::RootDir;
use crate::errors::MigrationError;
use crate::names::marker_file_name;
use crate::names::marker_name;

verus! {

/// Which on-disk layout shape is currently present.
///
/// `V0` is the legacy, pre-marker layout: any non-empty root without the
/// latest marker.  `V1` is the latest layout, recognized by its marker file.
#[derive(Clone, Copy, Debug, PartialEq, Eq, Structural)]
pub enum VersionTag {
    /// No installation yet: the root is absent or entirely empty.
    NoInstall,
    /// The legacy layout, which predates marker files.
    V0,
    /// The latest layout, marked complete by its marker file.
    V1,
}

/// The detection rule over the model: absent or empty means no installation;
/// otherwise the latest marker wins, and any other non-empty root is the
/// legacy layout.
pub open spec fn version_of(d: DirContents) -> VersionTag {
    if !d.exists || d.is_empty() {
        VersionTag::NoInstall
    } else if d.files.contains(marker_file_name()) {
        VersionTag::V1
    } else {
        VersionTag::V0
    }
}

/// The detector's failure rule: a root that could not be observed at all is
/// a detection error naming the root's path — never a silent `NoInstall`.
pub fn observed_or_error(observed: Option<RootDir>, path: String) -> (r: Result<
    RootDir,
    MigrationError,
>)
    ensures
        match r {
            Ok(d) => observed == Some(d),
            Err(e) => observed is None && e == (MigrationError::DetectionError { path }),
        },
{
    match observed {
        Some(d) => Ok(d),
        None => Err(MigrationError::DetectionError { path }),
    }
}

/// Inspect the observed root and report exactly the version that
/// [`version_of`] assigns to it.  Read-only: the model is not changed.
pub fn detect(dir: &RootDir) -> (t: VersionTag)
    ensures
        t == version_of(dir@),
{
    if !dir.exists || dir.is_empty() {
        VersionTag::NoInstall
    } else {
        let marker = marker_name();
        if dir.has_entry(marker.as_str()) {
            VersionTag::V1
        } else {
            VersionTag::V0
        }
    }
}

} // verus!
