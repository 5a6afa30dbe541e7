//! File-name rules for the upgrade's cleanup: which entries of the
//! installation root belong to the legacy layout and may be removed, and the
//! name of the marker file that completes the latest layout.

use vstd::prelude::*;
use vstd::string::StrSliceExecFns;
use vstd::string::StringExecFns;

verus! {

/// The name of the marker file whose presence in the root means that
/// migration to the latest layout completed.
pub open spec fn marker_file_name() -> Seq<char> {
    "layout.v1"@
}

/// Executable copy of [`marker_file_name`].
pub fn marker_name() -> (s: String)
    ensures
        s@ == marker_file_name(),
{
    String::from_str("layout.v1")
}

/// String equality, character by character, phrased over the views.
pub fn str_eq(a: &str, b: &str) -> (r: bool)
    ensures
        r == (a@ == b@),
{
    let n = a.unicode_len();
    let m = b.unicode_len();
    if n != m {
        return false;
    }
    let mut i: usize = 0;
    while i < n
        invariant
            n == a@.len(),
            n == b@.len(),
            0 <= i <= n,
            forall|j: int| 0 <= j < i ==> a@[j] == b@[j],
        decreases n - i,
    {
        if a.get_char(i) != b.get_char(i) {
            return false;
        }
        i = i + 1;
    }
    proof {
        assert(a@ =~= b@);
    }
    true
}

/// Where the stem of a file name ends, scanning positions `i - 1` down to `1`
/// for the rightmost dot.  A dot at position `0` does not begin an extension,
/// so a name such as `".profile"` is all stem.
pub open spec fn stem_end_from(n: Seq<char>, i: int) -> int
    decreases i,
{
    if i <= 1 {
        n.len() as int
    } else if n[i - 1] == '.' {
        i - 1
    } else {
        stem_end_from(n, i - 1)
    }
}

/// The stem of a file name: everything before its extension, the whole name
/// when it has none.
pub open spec fn stem_of(n: Seq<char>) -> Seq<char> {
    n.take(stem_end_from(n, n.len() as int))
}

/// Executable stem boundary, mirroring [`stem_end_from`] from the right end.
pub fn stem_end(name: &str) -> (e: usize)
    ensures
        e == stem_end_from(name@, name@.len() as int),
        e <= name@.len(),
{
    let n = name.unicode_len();
    let mut i: usize = n;
    while i > 1
        invariant
            i <= n,
            n == name@.len(),
            stem_end_from(name@, n as int) == stem_end_from(name@, i as int),
        decreases i,
    {
        if name.get_char(i - 1) == '.' {
            return i - 1;
        }
        i = i - 1;
    }
    n
}

/// True exactly when the stem of `name` is `"load"`, as for the legacy
/// loader scripts `load.sh` and `load.bat`, or a bare `load` file.
pub fn has_load_stem(name: &str) -> (r: bool)
    ensures
        r == (stem_of(name@) == "load"@),
{
    proof {
        reveal_strlit("load");
    }
    let e = stem_end(name);
    if e != 4 {
        proof {
            assert(stem_of(name@).len() != ("load"@).len());
        }
        false
    } else {
        let r = name.get_char(0) == 'l' && name.get_char(1) == 'o' && name.get_char(2) == 'a'
            && name.get_char(3) == 'd';
        proof {
            if r {
                assert(stem_of(name@) =~= "load"@);
            } else if stem_of(name@) == "load"@ {
                assert(stem_of(name@)[0] == name@[0]);
                assert(stem_of(name@)[1] == name@[1]);
                assert(stem_of(name@)[2] == name@[2]);
                assert(stem_of(name@)[3] == name@[3]);
            }
        }
        r
    }
}

/// The legacy artifacts that the upgrade removes from the root: any plain
/// file whose stem is `load`, and the old `volta` and `shim` binaries.
pub open spec fn obsolete_name(n: Seq<char>) -> bool {
    ||| stem_of(n) == "load"@
    ||| n == "volta"@
    ||| n == "shim"@
}

/// Executable test for [`obsolete_name`]: is this root entry a legacy
/// artifact of the previous layout?
pub fn is_obsolete(name: &str) -> (r: bool)
    ensures
        r == obsolete_name(name@),
{
    has_load_stem(name) || str_eq(name, "volta") || str_eq(name, "shim")
}

/// The marker file itself is never a cleanup target: its stem is `layout`,
/// and its name is neither `volta` nor `shim`.
pub proof fn lemma_marker_not_obsolete()
    ensures
        !obsolete_name(marker_file_name()),
{
    reveal_strlit("layout.v1");
    reveal_strlit("load");
    reveal_strlit("volta");
    reveal_strlit("shim");
    let m = "layout.v1"@;
    assert(stem_end_from(m, 9) == stem_end_from(m, 8));
    assert(stem_end_from(m, 8) == stem_end_from(m, 7));
    assert(stem_end_from(m, 7) == 6);
    assert(stem_of(m).len() == 6);
}

} // verus!
