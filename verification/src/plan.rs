//! Migration plans.  A step is carried out as an ordered sequence of
//! filesystem actions; the order is part of the contract: the new layout's
//! directories come first and the completion marker is written last, so an
//! interrupted step can never look finished.

use vstd::prelude::*;
use crate::dir::DirContents;
use crate::dir::RootDir;
use crate::dir::name_set;
use crate::names::is_obsolete;
use crate::names::marker_name;
use crate::names::marker_file_name;
use crate::names::obsolete_name;
use crate::names::str_eq;

verus! {

broadcast use vstd::set::group_set_axioms;

/// One filesystem action of a migration step, in the order the unverified
/// shell must perform them on the real directory.
#[derive(Clone, Debug, PartialEq, Eq)]
pub enum Action {
    /// Idempotently create the directory structure of the new layout.
    EnsureLayoutDirs,
    /// Delete one obsolete plain file, named directly under the root, if it
    /// still exists; absence is not an error.
    RemoveObsolete(String),
    /// Write the new layout's completion marker file.
    WriteMarker,
}

/// The effect of one action on the model.  Every action is total: deleting
/// an absent file and re-writing a present marker change nothing.
pub open spec fn action_effect(d: DirContents, a: Action) -> DirContents {
    match a {
        Action::EnsureLayoutDirs => DirContents { exists: true, has_subdirs: true, ..d },
        Action::RemoveObsolete(f) => DirContents { files: d.files.remove(f@), ..d },
        Action::WriteMarker => DirContents { files: d.files.insert(marker_file_name()), ..d },
    }
}

/// The effect of a sequence of actions, applied left to right.
pub open spec fn plan_effect(d: DirContents, p: Seq<Action>) -> DirContents
    decreases p.len(),
{
    if p.len() == 0 {
        d
    } else {
        action_effect(plan_effect(d, p.drop_last()), p.last())
    }
}

/// Whether this action deletes the file of the given name.
pub open spec fn removes_name(a: Action, n: Seq<char>) -> bool {
    a matches Action::RemoveObsolete(f) && f@ == n
}

/// Whether this action deletes a file that is present in `d` and obsolete.
pub open spec fn is_removal_of_obsolete(d: DirContents, a: Action) -> bool {
    a matches Action::RemoveObsolete(f) && d.files.contains(f@) && obsolete_name(f@)
}

/// The shape every migration step's plan has over the contents it was made
/// for: the layout directories come first, the marker write comes last, and
/// everything between deletes only obsolete files that are present — and all
/// of them.
pub open spec fn is_step_plan(d: DirContents, p: Seq<Action>) -> bool {
    &&& p.len() >= 2
    &&& p[0] == Action::EnsureLayoutDirs
    &&& p.last() == Action::WriteMarker
    &&& forall|i: int|
        1 <= i < p.len() - 1 ==> is_removal_of_obsolete(d, #[trigger] p[i])
    &&& forall|n: Seq<char>|
        #[trigger] d.files.contains(n) && obsolete_name(n) ==> exists|i: int|
            1 <= i < p.len() - 1 && removes_name(#[trigger] p[i], n)
}

/// The contents a completed upgrade step leaves behind: the new layout's
/// directories are in place, the obsolete files are gone, everything else is
/// kept, and the marker is present.
pub open spec fn migrated(d: DirContents) -> DirContents {
    DirContents {
        exists: true,
        has_subdirs: true,
        files: d.files.filter(|n: Seq<char>| !obsolete_name(n)).insert(marker_file_name()),
    }
}

/// The contents a fresh install leaves behind: the layout's directories and
/// its marker, beside whatever was already there.
pub open spec fn freshly_installed(d: DirContents) -> DirContents {
    DirContents { exists: true, has_subdirs: true, files: d.files.insert(marker_file_name()) }
}

/// The plan for a fresh install: create the layout, then write the marker.
pub fn fresh_plan() -> (p: Vec<Action>)
    ensures
        p@.len() == 2,
        p@[0] == Action::EnsureLayoutDirs,
        p@[1] == Action::WriteMarker,
{
    let mut p: Vec<Action> = Vec::new();
    p.push(Action::EnsureLayoutDirs);
    p.push(Action::WriteMarker);
    p
}

/// The cleanup-and-mark plan for upgrading the observed root in place: one
/// deletion for each obsolete file it holds, bracketed by the layout
/// creation and the marker write.
///
/// Cleanup is driven by what is present, not by where the code runs: a root
/// that never held the legacy artifacts — as on platforms where they never
/// existed — simply yields no deletions, which is not a failure or a skip.
pub fn upgrade_plan(dir: &RootDir) -> (p: Vec<Action>)
    ensures
        is_step_plan(dir@, p@),
{
    let mut p: Vec<Action> = Vec::new();
    p.push(Action::EnsureLayoutDirs);
    let mut i: usize = 0;
    while i < dir.files.len()
        invariant
            p@.len() >= 1,
            p@[0] == Action::EnsureLayoutDirs,
            0 <= i <= dir.files@.len(),
            forall|k: int| 1 <= k < p@.len() ==> is_removal_of_obsolete(dir@, #[trigger] p@[k]),
            forall|j: int|
                0 <= j < i && obsolete_name((#[trigger] dir.files@[j])@) ==> exists|k: int|
                    1 <= k < p@.len() && removes_name(#[trigger] p@[k], dir.files@[j]@),
        decreases dir.files@.len() - i,
    {
        if is_obsolete(dir.files[i].as_str()) {
            let ghost prev = p@;
            p.push(Action::RemoveObsolete(dir.files[i].clone()));
            proof {
                assert(exists|j: int|
                    0 <= j < dir.files@.len() && (#[trigger] dir.files@[j])@ == dir.files@[
                        i as int
                    ]@) by {
                    assert(0 <= i < dir.files@.len());
                    assert((#[trigger] dir.files@[i as int])@ == dir.files@[i as int]@);
                }
                assert(dir@.files.contains(dir.files@[i as int]@));
                assert(removes_name(p@[p@.len() - 1], dir.files@[i as int]@));
                assert forall|j: int|
                    0 <= j < i && obsolete_name((#[trigger] dir.files@[j])@) implies exists|k: int|
                        1 <= k < p@.len() && removes_name(#[trigger] p@[k], dir.files@[j]@) by {
                    let k = choose|k: int|
                        1 <= k < prev.len() && removes_name(#[trigger] prev[k], dir.files@[j]@);
                    assert(p@[k] == prev[k]);
                    assert(removes_name(p@[k], dir.files@[j]@));
                }
            }
        }
        i = i + 1;
    }
    let ghost before_marker = p@;
    p.push(Action::WriteMarker);
    proof {
        assert(p@.last() == Action::WriteMarker);
        assert forall|n: Seq<char>| #[trigger] dir@.files.contains(n) && obsolete_name(n) implies
            exists|k: int| 1 <= k < p@.len() - 1 && removes_name(#[trigger] p@[k], n) by {
            let j = choose|j: int| 0 <= j < dir.files@.len() && dir.files@[j]@ == n;
            assert(obsolete_name(dir.files@[j]@));
            let k = choose|k: int|
                1 <= k < before_marker.len() && removes_name(before_marker[k], dir.files@[j]@);
            assert(p@[k] == before_marker[k]);
            assert(removes_name(p@[k], n));
        }
    }
    p
}

/// Names deleted by the cleanup segment `p[1 .. upto]` of a plan.
pub open spec fn deleted_names(p: Seq<Action>, upto: int) -> Set<Seq<char>> {
    Set::new(|n: Seq<char>| exists|k: int| 1 <= k < upto && removes_name(#[trigger] p[k], n))
}

/// After the first `i` actions of a step plan, the layout directories are in
/// place and exactly the names deleted so far are gone.
pub proof fn lemma_cleanup_effect(d: DirContents, p: Seq<Action>, i: int)
    requires
        is_step_plan(d, p),
        1 <= i <= p.len() - 1,
    ensures
        plan_effect(d, p.take(i)) == (DirContents {
            exists: true,
            has_subdirs: true,
            files: d.files.difference(deleted_names(p, i)),
        }),
    decreases i,
{
    if i == 1 {
        let q = p.take(1);
        assert(q.len() == 1);
        assert(q.drop_last() =~= Seq::<Action>::empty());
        assert(plan_effect(d, q.drop_last()) == d);
        assert(q.last() == p[0]);
        assert(plan_effect(d, q) == action_effect(d, p[0]));
        assert(d.files.difference(deleted_names(p, 1)) =~= d.files);
        assert(plan_effect(d, q) =~= (DirContents {
            exists: true,
            has_subdirs: true,
            files: d.files.difference(deleted_names(p, 1)),
        }));
    } else {
        lemma_cleanup_effect(d, p, i - 1);
        assert(p.take(i).drop_last() =~= p.take(i - 1));
        assert(p.take(i).last() == p[i - 1]);
        let a = p[i - 1];
        assert(is_removal_of_obsolete(d, a));
        let f = a->RemoveObsolete_0;
        assert(d.files.difference(deleted_names(p, i - 1)).remove(f@) =~= d.files.difference(
            deleted_names(p, i),
        )) by {
            assert forall|n: Seq<char>|
                deleted_names(p, i).contains(n) implies deleted_names(p, i - 1).contains(n)
                || n == f@ by {
                let k = choose|k: int| 1 <= k < i && removes_name(p[k], n);
                if k < i - 1 {
                    assert(deleted_names(p, i - 1).contains(n));
                }
            }
            assert forall|n: Seq<char>|
                deleted_names(p, i - 1).contains(n) implies deleted_names(p, i).contains(n) by {
                let k = choose|k: int| 1 <= k < i - 1 && removes_name(p[k], n);
                assert(removes_name(p[k], n) && 1 <= k < i);
            }
            assert(removes_name(a, f@));
            assert(deleted_names(p, i).contains(f@));
        }
        assert(plan_effect(d, p.take(i)) =~= (DirContents {
            exists: true,
            has_subdirs: true,
            files: d.files.difference(deleted_names(p, i)),
        }));
    }
}

/// A step plan's full effect on the model is exactly [`migrated`].
pub proof fn lemma_step_plan_effect(d: DirContents, p: Seq<Action>)
    requires
        is_step_plan(d, p),
    ensures
        plan_effect(d, p) == migrated(d),
{
    let last = p.len() - 1;
    lemma_cleanup_effect(d, p, last);
    assert(p.take(last) =~= p.drop_last());
    let survivors = d.files.filter(|n: Seq<char>| !obsolete_name(n));
    assert(d.files.difference(deleted_names(p, last)) =~= survivors) by {
        assert forall|n: Seq<char>|
            d.files.difference(deleted_names(p, last)).contains(n) implies survivors.contains(
            n,
        ) by {
            if obsolete_name(n) {
                assert(d.files.contains(n) && obsolete_name(n));
                let k = choose|k: int| 1 <= k < last && removes_name(p[k], n);
                assert(deleted_names(p, last).contains(n));
            }
        }
        assert forall|n: Seq<char>| survivors.contains(n) implies d.files.difference(
            deleted_names(p, last),
        ).contains(n) by {
            if deleted_names(p, last).contains(n) {
                let k = choose|k: int| 1 <= k < last && removes_name(p[k], n);
                assert(is_removal_of_obsolete(d, p[k]));
                assert(obsolete_name(n));
            }
        }
    }
    assert(plan_effect(d, p) =~= migrated(d));
}

/// Applying a plan in the model, one action at a time.
pub fn run_plan(dir: &mut RootDir, p: &Vec<Action>)
    ensures
        final(dir)@ == plan_effect(old(dir)@, p@),
{
    let mut i: usize = 0;
    while i < p.len()
        invariant
            0 <= i <= p@.len(),
            dir@ == plan_effect(old(dir)@, p@.take(i as int)),
        decreases p@.len() - i,
    {
        apply_action(dir, &p[i]);
        proof {
            assert(p@.take(i + 1).drop_last() =~= p@.take(i as int));
            assert(p@.take(i + 1).last() == p@[i as int]);
        }
        i = i + 1;
    }
    proof {
        assert(p@.take(p@.len() as int) =~= p@);
    }
}

/// Perform one action on the model, exactly as [`action_effect`] describes.
pub fn apply_action(dir: &mut RootDir, a: &Action)
    ensures
        final(dir)@ == action_effect(old(dir)@, *a),
{
    match a {
        Action::EnsureLayoutDirs => {
            dir.exists = true;
            dir.has_subdirs = true;
            proof {
                assert(dir@ =~= action_effect(old(dir)@, *a));
            }
        },
        Action::RemoveObsolete(f) => {
            remove_entries(dir, f.as_str());
            proof {
                assert(dir@ =~= action_effect(old(dir)@, *a));
            }
        },
        Action::WriteMarker => {
            let m = marker_name();
            if !dir.has_entry(m.as_str()) {
                let ghost prev = dir.files@;
                dir.files.push(m);
                proof {
                    assert(name_set(dir.files@) =~= name_set(prev).insert(marker_file_name()))
                        by {
                        assert forall|n: Seq<char>| name_set(dir.files@).contains(n) implies
                            name_set(prev).insert(marker_file_name()).contains(n) by {
                            let j = choose|j: int|
                                0 <= j < dir.files@.len() && dir.files@[j]@ == n;
                            if j < prev.len() {
                                assert(prev[j]@ == n);
                            }
                        }
                        assert forall|n: Seq<char>|
                            name_set(prev).insert(marker_file_name()).contains(n) implies
                            name_set(dir.files@).contains(n) by {
                            if name_set(prev).contains(n) {
                                let j = choose|j: int| 0 <= j < prev.len() && prev[j]@ == n;
                                assert(dir.files@[j]@ == n);
                            } else {
                                assert(dir.files@[prev.len() as int]@ == n);
                            }
                        }
                    }
                }
            } else {
                proof {
                    assert(name_set(dir.files@) =~= name_set(dir.files@).insert(
                        marker_file_name(),
                    ));
                }
            }
            proof {
                assert(dir@ =~= action_effect(old(dir)@, *a));
            }
        },
    }
}

/// Remove every entry of the given name from the model's file list.
fn remove_entries(dir: &mut RootDir, name: &str)
    ensures
        final(dir)@ == (DirContents { files: old(dir)@.files.remove(name@), ..old(dir)@ }),
{
    let mut kept: Vec<String> = Vec::new();
    let mut i: usize = 0;
    while i < dir.files.len()
        invariant
            0 <= i <= dir.files@.len(),
            forall|k: int|
                0 <= k < kept@.len() ==> (#[trigger] kept@[k])@ != name@ && exists|j: int|
                    0 <= j < i && dir.files@[j]@ == kept@[k]@,
            forall|j: int|
                0 <= j < i && (#[trigger] dir.files@[j])@ != name@ ==> exists|k: int|
                    0 <= k < kept@.len() && kept@[k]@ == dir.files@[j]@,
        decreases dir.files@.len() - i,
    {
        if !str_eq(dir.files[i].as_str(), name) {
            let ghost prevk = kept@;
            kept.push(dir.files[i].clone());
            proof {
                assert((#[trigger] kept@[kept@.len() - 1])@ == dir.files@[i as int]@);
                assert forall|j: int|
                    0 <= j < i && (#[trigger] dir.files@[j])@ != name@ implies exists|k: int|
                        0 <= k < kept@.len() && kept@[k]@ == dir.files@[j]@ by {
                    let k = choose|k: int|
                        0 <= k < prevk.len() && (#[trigger] prevk[k])@ == dir.files@[j]@;
                    assert(kept@[k] == prevk[k]);
                    assert(kept@[k]@ == dir.files@[j]@);
                }
            }
        }
        i = i + 1;
    }
    let ghost prev = dir.files@;
    dir.files = kept;
    proof {
        assert(name_set(dir.files@) =~= name_set(prev).remove(name@)) by {
            assert forall|n: Seq<char>| name_set(dir.files@).contains(n) implies name_set(
                prev,
            ).remove(name@).contains(n) by {
                let k = choose|k: int| 0 <= k < dir.files@.len() && dir.files@[k]@ == n;
                let j = choose|j: int| 0 <= j < prev.len() && prev[j]@ == dir.files@[k]@;
                assert(prev[j]@ == n);
            }
            assert forall|n: Seq<char>| name_set(prev).remove(name@).contains(n) implies name_set(
                dir.files@,
            ).contains(n) by {
                let j = choose|j: int| 0 <= j < prev.len() && prev[j]@ == n;
                let k = choose|k: int| 0 <= k < dir.files@.len() && dir.files@[k]@ == prev[j]@;
                assert(dir.files@[k]@ == n);
            }
        }
        assert(dir@ =~= (DirContents { files: name_set(prev).remove(name@), ..old(dir)@ }));
    }
}

} // verus!
