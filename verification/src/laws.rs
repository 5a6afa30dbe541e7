//! The properties that make the migration safe: each step lands on the
//! latest version, repeating a step changes nothing, an interrupted step is
//! never mistaken for a finished one, user files survive, and deleting an
//! already-absent file is a no-op.

use vstd::prelude::*;
use crate::detect::VersionTag;
use crate::detect::version_of;
use crate::dir::DirContents;
use crate::driver::migration_effect;
use crate::names::lemma_marker_not_obsolete;
use crate::names::marker_file_name;
use crate::names::obsolete_name;
use crate::plan::Action;
use crate::plan::action_effect;
use crate::plan::deleted_names;
use crate::plan::freshly_installed;
use crate::plan::is_removal_of_obsolete;
use crate::plan::is_step_plan;
use crate::plan::lemma_cleanup_effect;
use crate::plan::migrated;
use crate::plan::plan_effect;
use crate::plan::removes_name;

verus! {

broadcast use vstd::set::group_set_axioms;

/// Detection of nothing: an absent or entirely empty root holds no
/// installation.
pub proof fn lemma_detect_no_install(d: DirContents)
    requires
        !d.exists || d.is_empty(),
    ensures
        version_of(d) == VersionTag::NoInstall,
{
}

/// Detection with the latest marker present reports the latest version,
/// whatever else the root holds.
pub proof fn lemma_detect_latest_marker_wins(d: DirContents)
    requires
        d.exists,
        d.files.contains(marker_file_name()),
    ensures
        version_of(d) == VersionTag::V1,
{
    assert(d.files != Set::<Seq<char>>::empty());
}

/// Applying the upgrade step to a legacy-layout root yields contents the
/// detector reports as the latest version.
pub proof fn lemma_upgrade_reaches_latest(d: DirContents)
    requires
        version_of(d) == VersionTag::V0,
    ensures
        version_of(migrated(d)) == VersionTag::V1,
{
    assert(migrated(d).files.contains(marker_file_name()));
    lemma_detect_latest_marker_wins(migrated(d));
}

/// A fresh install on a root with no installation likewise reaches the
/// latest version.
pub proof fn lemma_fresh_reaches_latest(d: DirContents)
    requires
        version_of(d) == VersionTag::NoInstall,
    ensures
        version_of(freshly_installed(d)) == VersionTag::V1,
{
    assert(freshly_installed(d).files.contains(marker_file_name()));
    lemma_detect_latest_marker_wins(freshly_installed(d));
}

/// Idempotence of the upgrade step: run on its own output it changes
/// nothing, because the marker is not a cleanup target and every obsolete
/// file is already gone.
pub proof fn lemma_upgrade_idempotent(d: DirContents)
    ensures
        migrated(migrated(d)) == migrated(d),
{
    lemma_marker_not_obsolete();
    assert(migrated(migrated(d)).files =~= migrated(d).files);
    assert(migrated(migrated(d)) =~= migrated(d));
}

/// Idempotence of the fresh-install step: creating directories that exist
/// and a marker that is present changes nothing.
pub proof fn lemma_fresh_idempotent(d: DirContents)
    ensures
        freshly_installed(freshly_installed(d)) == freshly_installed(d),
{
    assert(freshly_installed(freshly_installed(d)).files =~= freshly_installed(d).files);
    assert(freshly_installed(freshly_installed(d)) =~= freshly_installed(d));
}

/// Idempotence of the whole migration: a second run finds the latest layout
/// and leaves everything as it is.
pub proof fn lemma_migration_idempotent(d: DirContents)
    ensures
        migration_effect(migration_effect(d)) == migration_effect(d),
{
    if version_of(d) == VersionTag::NoInstall {
        lemma_fresh_reaches_latest(d);
    } else if version_of(d) == VersionTag::V0 {
        lemma_upgrade_reaches_latest(d);
    }
}

/// The marker-last invariant: a step interrupted anywhere before its final
/// marker write leaves contents still detected as the prior legacy version,
/// and completing the step from there ends exactly where the uninterrupted
/// step ends — with no complaint about files already deleted.
pub proof fn lemma_marker_last(d: DirContents, p: Seq<Action>, i: int)
    requires
        version_of(d) == VersionTag::V0,
        is_step_plan(d, p),
        0 <= i < p.len(),
    ensures
        version_of(plan_effect(d, p.take(i))) == VersionTag::V0,
        migrated(plan_effect(d, p.take(i))) == migrated(d),
{
    if i == 0 {
        assert(p.take(0) =~= Seq::<Action>::empty());
        assert(plan_effect(d, p.take(0)) == d);
    } else {
        lemma_cleanup_effect(d, p, i);
        let partial = plan_effect(d, p.take(i));
        assert(partial.files == d.files.difference(deleted_names(p, i)));
        assert(!partial.files.contains(marker_file_name()));
        assert(!partial.is_empty());
        assert(version_of(partial) == VersionTag::V0);
        assert forall|n: Seq<char>| #[trigger] deleted_names(p, i).contains(n) implies
            obsolete_name(n) by {
            let k = choose|k: int| 1 <= k < i && removes_name(p[k], n);
            assert(is_removal_of_obsolete(d, p[k]));
        }
        assert(partial.files.filter(|n: Seq<char>| !obsolete_name(n)) =~= d.files.filter(
            |n: Seq<char>| !obsolete_name(n),
        ));
        assert(migrated(partial) =~= migrated(d));
    }
}

/// Deleting a file that is not there changes nothing; modeled as a total
/// action, it raises no error.
pub proof fn lemma_remove_absent(d: DirContents, name: String)
    requires
        !d.files.contains(name@),
    ensures
        action_effect(d, Action::RemoveObsolete(name)) == d,
{
    assert(d.files.remove(name@) =~= d.files);
    assert(action_effect(d, Action::RemoveObsolete(name)) =~= d);
}

/// Cleanup touches only known-obsolete artifacts: every file of the prior
/// contents that is not obsolete survives the upgrade, and everything the
/// upgrade removed was obsolete.
pub proof fn lemma_user_files_kept(d: DirContents, n: Seq<char>)
    requires
        d.files.contains(n),
    ensures
        !obsolete_name(n) ==> migrated(d).files.contains(n),
        !migrated(d).files.contains(n) ==> obsolete_name(n),
{
}

} // verus!
