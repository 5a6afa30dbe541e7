//! The migration driver: detect the current version, then walk the ordered
//! chain of migration steps until the latest layout is reached.  Each step
//! consumes its prior version state and produces the next one; on the model
//! every step is total, and the shell maps any real filesystem failure of an
//! action to its exact error through [`action_error`].

use vstd::prelude::*;
use vstd::string::StringExecFns;
use crate::detect::VersionTag;
use crate::detect::detect;
use crate::detect::version_of;
use crate::dir::DirContents;
use crate::dir::RootDir;
use crate::errors::MigrationError;
use crate::layout::Empty;
use crate::layout::V0;
use crate::layout::V1;
use crate::layout::VoltaHome;
use crate::names::marker_file_name;
use crate::plan::Action;
use crate::plan::action_effect;
use crate::plan::is_step_plan;
use crate::plan::plan_effect;
use crate::plan::fresh_plan;
use crate::plan::freshly_installed;
use crate::plan::lemma_step_plan_effect;
use crate::plan::migrated;
use crate::plan::run_plan;
use crate::plan::upgrade_plan;

verus! {

broadcast use vstd::set::group_set_axioms;

/// Fresh-install step: no prior installation exists, so create the latest
/// layout's directories and mark it complete.  Consumes the prior state.
pub fn v1_from_empty(prior: Empty, dir: &mut RootDir) -> (v: V1)
    ensures
        final(dir)@ == freshly_installed(old(dir)@),
        v.home.root_path() == prior.home@,
{
    let p = fresh_plan();
    run_plan(dir, &p);
    proof {
        let q = p@;
        let d0 = old(dir)@;
        assert(q.drop_last().drop_last() =~= Seq::<Action>::empty());
        assert(plan_effect(d0, q.drop_last().drop_last()) == d0);
        assert(q.drop_last().last() == q[0]);
        assert(plan_effect(d0, q.drop_last()) == action_effect(d0, q[0]));
        assert(q.last() == q[1]);
        assert(plan_effect(d0, q) == action_effect(
            action_effect(d0, q[0]),
            q[1],
        ));
        assert(dir@ =~= freshly_installed(d0));
    }
    V1::new(prior.home)
}

/// Upgrade step from the legacy layout: create the new layout's directories
/// beside the old contents, delete exactly the obsolete artifacts, and write
/// the marker last.  Consumes the prior state.
pub fn v1_from_v0(prior: V0, dir: &mut RootDir) -> (v: V1)
    ensures
        final(dir)@ == migrated(old(dir)@),
        v.home.root_path() == prior.home@,
{
    let p = upgrade_plan(dir);
    run_plan(dir, &p);
    proof {
        lemma_step_plan_effect(old(dir)@, p@);
    }
    V1::new(prior.home)
}

/// What a full migration leaves in the model, by detected version: a root
/// already at the latest layout is left untouched.
pub open spec fn migration_effect(d: DirContents) -> DirContents {
    if version_of(d) == VersionTag::V1 {
        d
    } else if version_of(d) == VersionTag::NoInstall {
        freshly_installed(d)
    } else {
        migrated(d)
    }
}

/// The single entry point over the model: detect the current version, apply
/// the migration steps in order until the latest layout is reached, and hand
/// back its descriptor state.
pub fn migrate(root: String, dir: &mut RootDir) -> (v: V1)
    requires
        old(dir)@.wf(),
    ensures
        final(dir)@ == migration_effect(old(dir)@),
        version_of(final(dir)@) == VersionTag::V1,
        v.home.root_path() == root@,
{
    match detect(dir) {
        VersionTag::V1 => V1::new(root),
        VersionTag::NoInstall => v1_from_empty(Empty { home: root }, dir),
        VersionTag::V0 => v1_from_v0(V0 { home: root }, dir),
    }
}

/// The full plan of actions the shell must perform on the real root, in
/// order: empty when the latest layout is already present, otherwise a step
/// plan whose effect on the model is exactly the migration's.
pub fn migration_plan(dir: &RootDir) -> (p: Vec<Action>)
    ensures
        version_of(dir@) == VersionTag::V1 ==> p@.len() == 0 && plan_effect(dir@, p@) == dir@,
        version_of(dir@) != VersionTag::V1 ==> is_step_plan(dir@, p@) && plan_effect(dir@, p@)
            == migrated(dir@),
        dir@.wf() ==> plan_effect(dir@, p@) == migration_effect(dir@),
{
    match detect(dir) {
        VersionTag::V1 => {
            let p: Vec<Action> = Vec::new();
            proof {
                assert(p@ =~= Seq::<Action>::empty());
                assert(plan_effect(dir@, p@) == dir@);
            }
            p
        },
        VersionTag::NoInstall => {
            if dir.files.len() == 0 {
                let p = fresh_plan();
                proof {
                    let d = dir@;
                    assert(d.files =~= Set::<Seq<char>>::empty());
                    assert(is_step_plan(d, p@));
                    lemma_step_plan_effect(d, p@);
                    assert(migrated(d).files =~= freshly_installed(d).files);
                    assert(migrated(d) =~= freshly_installed(d));
                }
                p
            } else {
                // an observation that claims no installation yet lists files
                // is not well formed; plan the defensive full upgrade
                let p = upgrade_plan(dir);
                proof {
                    lemma_step_plan_effect(dir@, p@);
                }
                p
            }
        },
        VersionTag::V0 => {
            let p = upgrade_plan(dir);
            proof {
                lemma_step_plan_effect(dir@, p@);
            }
            p
        },
    }
}

/// Which error a failed action reports: the operation kind, with the exact
/// path that was being worked on under the given layout root.
pub open spec fn error_for(a: Action, root: Seq<char>, e: MigrationError) -> bool {
    match a {
        Action::EnsureLayoutDirs => e matches MigrationError::CreateDirError { dir } && dir@
            == root,
        Action::RemoveObsolete(f) => e matches MigrationError::DeleteFileError { file } && file@
            == root + "/"@ + f@,
        Action::WriteMarker => e matches MigrationError::CreateMarkerError { file } && file@ == root
            + "/"@ + marker_file_name(),
    }
}

/// Build the error for an action that failed on the real filesystem, exactly
/// as [`error_for`] prescribes.
pub fn action_error(a: &Action, home: &VoltaHome) -> (e: MigrationError)
    ensures
        error_for(*a, home.root_path(), e),
{
    match a {
        Action::EnsureLayoutDirs => MigrationError::CreateDirError { dir: home.root().clone() },
        Action::RemoveObsolete(f) => MigrationError::DeleteFileError {
            file: home.root().clone().concat("/").concat(f.as_str()),
        },
        Action::WriteMarker => MigrationError::CreateMarkerError { file: home.layout_file() },
    }
}

} // verus!
