//! The layout descriptor of the latest version and the version states the
//! migration threads through.  A version state is an immutable witness to
//! the on-disk shape present when it was constructed; each step consumes its
//! input state and produces the next one.

use vstd::prelude::*;
use vstd::string::StringExecFns;
use crate::names::marker_file_name;

verus! {

/// The layout descriptor of the latest version: the path accessors of the
/// region of the filesystem it describes.  Creating its concrete directory
/// structure on disk is the shell's `EnsureLayoutDirs` action.
#[derive(Clone, Debug)]
pub struct VoltaHome {
    root: String,
}

impl VoltaHome {
    /// The root path this layout is rooted at.
    pub closed spec fn root_path(&self) -> Seq<char> {
        self.root@
    }

    /// A descriptor for the layout rooted at `root`.
    pub fn new(root: String) -> (h: VoltaHome)
        ensures
            h.root_path() == root@,
    {
        VoltaHome { root }
    }

    /// The root directory of this layout.
    pub fn root(&self) -> (p: &String)
        ensures
            p@ == self.root_path(),
    {
        &self.root
    }

    /// The full path of this layout's completion marker file.
    pub fn layout_file(&self) -> (p: String)
        ensures
            p@ == self.root_path() + "/"@ + marker_file_name(),
    {
        self.root.clone().concat("/").concat("layout.v1")
    }
}

/// The synthetic state for a root that holds no installation yet.
#[derive(Clone, Debug)]
pub struct Empty {
    /// The root path the installation will be created under.
    pub home: String,
}

/// The legacy layout state, which predates marker files.
#[derive(Clone, Debug)]
pub struct V0 {
    /// The root path of the legacy installation.
    pub home: String,
}

/// The latest layout state.
///
/// Holds the latest layout's descriptor, so the caller can use the now
/// current layout directly.
#[derive(Clone, Debug)]
pub struct V1 {
    /// The descriptor of the latest layout at this installation's root.
    pub home: VoltaHome,
}

impl V1 {
    /// The latest-layout state rooted at `home`.
    pub fn new(home: String) -> (v: V1)
        ensures
            v.home.root_path() == home@,
    {
        V1 { home: VoltaHome::new(home) }
    }
}

} // verus!
