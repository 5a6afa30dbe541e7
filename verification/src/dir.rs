//! The model of the installation root that the library works on: whether the
//! root directory exists, which plain files it holds directly, and whether it
//! has any subdirectories.  The unverified shell reads the real directory
//! into a [`RootDir`] and later performs the planned actions on disk.

use vstd::prelude::*;
use crate::names::str_eq;

verus! {

broadcast use vstd::set::group_set_axioms;

/// Mathematical view of an installation root: the file names are a set, so
/// that neither the order of directory entries nor duplicates matter.
#[verifier::ext_equal]
pub struct DirContents {
    /// Whether the root directory itself exists.
    pub exists: bool,
    /// Names of the plain files directly inside the root.
    pub files: Set<Seq<char>>,
    /// Whether the root holds any subdirectory.
    pub has_subdirs: bool,
}

impl DirContents {
    /// A root that does not exist holds nothing.
    pub open spec fn wf(self) -> bool {
        !self.exists ==> self.files == Set::<Seq<char>>::empty() && !self.has_subdirs
    }

    /// A root with no files and no subdirectories.
    pub open spec fn is_empty(self) -> bool {
        self.files == Set::<Seq<char>>::empty() && !self.has_subdirs
    }
}

/// The set of names occurring in a sequence of file names.
pub open spec fn name_set(fs: Seq<String>) -> Set<Seq<char>> {
    Set::new(|n: Seq<char>| exists|i: int| 0 <= i < fs.len() && fs[i]@ == n)
}

/// Executable model of an installation root, as observed in one read of the
/// real directory.
#[derive(Clone, Debug, PartialEq)]
pub struct RootDir {
    /// Whether the root directory itself exists.
    pub exists: bool,
    /// Names of the plain files directly inside the root.
    pub files: Vec<String>,
    /// Whether the root holds any subdirectory.
    pub has_subdirs: bool,
}

impl View for RootDir {
    type V = DirContents;

    open spec fn view(&self) -> DirContents {
        DirContents {
            exists: self.exists,
            files: name_set(self.files@),
            has_subdirs: self.has_subdirs,
        }
    }
}

impl RootDir {
    /// A model of a root directory that does not exist at all.
    pub fn absent() -> (d: RootDir)
        ensures
            d@ == (DirContents { exists: false, files: Set::<Seq<char>>::empty(), has_subdirs: false }),
            d@.wf(),
    {
        let d = RootDir { exists: false, files: Vec::new(), has_subdirs: false };
        proof {
            assert(d@.files =~= Set::<Seq<char>>::empty());
            assert(d@ =~= (DirContents {
                exists: false,
                files: Set::<Seq<char>>::empty(),
                has_subdirs: false,
            }));
        }
        d
    }

    /// Whether a plain file of the given name stands directly in the root.
    pub fn has_entry(&self, name: &str) -> (r: bool)
        ensures
            r == self@.files.contains(name@),
    {
        let mut i: usize = 0;
        while i < self.files.len()
            invariant
                0 <= i <= self.files@.len(),
                forall|j: int| 0 <= j < i ==> self.files@[j]@ != name@,
            decreases self.files@.len() - i,
        {
            if str_eq(self.files[i].as_str(), name) {
                return true;
            }
            i = i + 1;
        }
        false
    }

    /// Whether the root is entirely empty: no files, no subdirectories.
    pub fn is_empty(&self) -> (r: bool)
        ensures
            r == self@.is_empty(),
    {
        if self.files.len() == 0 && !self.has_subdirs {
            proof {
                assert(self@.files =~= Set::<Seq<char>>::empty());
            }
            true
        } else {
            proof {
                if self.files.len() > 0 {
                    assert(self@.files.contains(self.files@[0]@));
                }
            }
            false
        }
    }
}

} // verus!
