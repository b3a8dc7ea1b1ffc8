//! A mathematical model of the filesystem the copy stage works against: a
//! map from paths to byte contents, with copying as byte-for-byte
//! duplication. The laws here say what the artifact-copy plan guarantees:
//! every destination ends byte-identical to its source, and running the same
//! plan again over unchanged sources changes nothing.

use vstd::prelude::*;
use crate::plan::artifact_pairs;

verus! {

/// One copy applied to the model: when the source exists, the destination
/// gets exactly its bytes; a missing source leaves the model unchanged (the
/// real operation fails and the pipeline records the failure).
pub open spec fn apply_copy(
    fs: Map<Seq<char>, Seq<u8>>,
    src: Seq<char>,
    dst: Seq<char>,
) -> Map<Seq<char>, Seq<u8>> {
    if fs.dom().contains(src) {
        fs.insert(dst, fs[src])
    } else {
        fs
    }
}

/// A whole copy plan applied in order.
pub open spec fn apply_copies(
    fs: Map<Seq<char>, Seq<u8>>,
    plan: Seq<(Seq<char>, Seq<char>)>,
) -> Map<Seq<char>, Seq<u8>>
    decreases plan.len(),
{
    if plan.len() == 0 {
        fs
    } else {
        apply_copies(apply_copy(fs, plan[0].0, plan[0].1), plan.drop_first())
    }
}

/// A path that is no destination of the plan is untouched by it: present
/// afterwards exactly when present before, with the same bytes.
pub proof fn lemma_copies_frame(
    fs: Map<Seq<char>, Seq<u8>>,
    plan: Seq<(Seq<char>, Seq<char>)>,
    p: Seq<char>,
)
    requires
        forall|i: int| 0 <= i < plan.len() ==> (#[trigger] plan[i]).1 != p,
    ensures
        apply_copies(fs, plan).dom().contains(p) == fs.dom().contains(p),
        fs.dom().contains(p) ==> apply_copies(fs, plan)[p] == fs[p],
    decreases plan.len(),
{
    if plan.len() == 0 {
    } else {
        let fs1 = apply_copy(fs, plan[0].0, plan[0].1);
        let tail = plan.drop_first();
        assert(plan[0].1 != p);
        assert(fs1.dom().contains(p) == fs.dom().contains(p));
        assert(fs.dom().contains(p) ==> fs1[p] == fs[p]);
        assert forall|i: int| 0 <= i < tail.len() implies (#[trigger] tail[i]).1 != p by {
            assert(tail[i] == plan[i + 1]);
        }
        lemma_copies_frame(fs1, tail, p);
    }
}

/// When every source exists, no destination doubles as a source, and the
/// destinations are distinct, then after the plan runs every destination is
/// byte-identical to its source.
pub proof fn lemma_copies_byte_identical(
    fs: Map<Seq<char>, Seq<u8>>,
    plan: Seq<(Seq<char>, Seq<char>)>,
)
    requires
        forall|i: int| 0 <= i < plan.len() ==> fs.dom().contains((#[trigger] plan[i]).0),
        forall|i: int, j: int|
            0 <= i < plan.len() && 0 <= j < plan.len() ==> (#[trigger] plan[i]).1 != (
            #[trigger] plan[j]).0,
        forall|i: int, j: int|
            0 <= i < j < plan.len() ==> (#[trigger] plan[i]).1 != (#[trigger] plan[j]).1,
    ensures
        forall|i: int|
            0 <= i < plan.len() ==> apply_copies(fs, plan).dom().contains(
                (#[trigger] plan[i]).1,
            ) && apply_copies(fs, plan)[plan[i].1] == fs[plan[i].0],
    decreases plan.len(),
{
    if plan.len() == 0 {
    } else {
        let src0 = plan[0].0;
        let dst0 = plan[0].1;
        let fs1 = apply_copy(fs, src0, dst0);
        let tail = plan.drop_first();
        assert(fs1 == fs.insert(dst0, fs[src0]));
        assert forall|i: int| 0 <= i < tail.len() implies fs1.dom().contains(
            (#[trigger] tail[i]).0,
        ) && fs1[tail[i].0] == fs[tail[i].0] by {
            assert(tail[i] == plan[i + 1]);
            assert(fs.dom().contains(plan[i + 1].0));
            assert(dst0 != plan[i + 1].0);
        }
        assert forall|i: int, j: int|
            0 <= i < tail.len() && 0 <= j < tail.len() implies (#[trigger] tail[i]).1
            != (#[trigger] tail[j]).0 by {
            assert(tail[i] == plan[i + 1]);
            assert(tail[j] == plan[j + 1]);
        }
        assert forall|i: int, j: int| 0 <= i < j < tail.len() implies (
        #[trigger] tail[i]).1 != (#[trigger] tail[j]).1 by {
            assert(tail[i] == plan[i + 1]);
            assert(tail[j] == plan[j + 1]);
        }
        lemma_copies_byte_identical(fs1, tail);
        let fsn = apply_copies(fs, plan);
        assert(fsn == apply_copies(fs1, tail));
        assert forall|i: int| 0 <= i < tail.len() implies (#[trigger] tail[i]).1 != dst0
            by {
            assert(tail[i] == plan[i + 1]);
        }
        lemma_copies_frame(fs1, tail, dst0);
        assert(fsn.dom().contains(dst0) && fsn[dst0] == fs[src0]);
        assert forall|i: int| 0 <= i < plan.len() implies fsn.dom().contains(
            (#[trigger] plan[i]).1,
        ) && fsn[plan[i].1] == fs[plan[i].0] by {
            if i > 0 {
                assert(plan[i] == tail[i - 1]);
                assert(fsn[tail[i - 1].1] == fs1[tail[i - 1].0]);
            }
        }
    }
}

/// A plan whose every destination already holds exactly its source's bytes
/// changes nothing when it runs.
pub proof fn lemma_copies_noop(fs: Map<Seq<char>, Seq<u8>>, plan: Seq<(Seq<char>, Seq<char>)>)
    requires
        forall|i: int|
            0 <= i < plan.len() ==> fs.dom().contains((#[trigger] plan[i]).0)
                && fs.dom().contains(plan[i].1) && fs[plan[i].1] == fs[plan[i].0],
    ensures
        apply_copies(fs, plan) == fs,
    decreases plan.len(),
{
    if plan.len() == 0 {
    } else {
        let fs1 = apply_copy(fs, plan[0].0, plan[0].1);
        assert(fs1 =~= fs);
        let tail = plan.drop_first();
        assert forall|i: int|
            0 <= i < tail.len() implies fs.dom().contains((#[trigger] tail[i]).0)
            && fs.dom().contains(tail[i].1) && fs[tail[i].1] == fs[tail[i].0] by {
            assert(tail[i] == plan[i + 1]);
        }
        lemma_copies_noop(fs, tail);
    }
}

/// Running the same copy plan a second time over unchanged sources is
/// idempotent: the second run leaves every file — the package directory's
/// contents included — exactly as the first run left it.
pub proof fn lemma_copy_plan_idempotent(
    fs: Map<Seq<char>, Seq<u8>>,
    plan: Seq<(Seq<char>, Seq<char>)>,
)
    requires
        forall|i: int| 0 <= i < plan.len() ==> fs.dom().contains((#[trigger] plan[i]).0),
        forall|i: int, j: int|
            0 <= i < plan.len() && 0 <= j < plan.len() ==> (#[trigger] plan[i]).1 != (
            #[trigger] plan[j]).0,
        forall|i: int, j: int|
            0 <= i < j < plan.len() ==> (#[trigger] plan[i]).1 != (#[trigger] plan[j]).1,
    ensures
        apply_copies(apply_copies(fs, plan), plan) == apply_copies(fs, plan),
{
    let fs1 = apply_copies(fs, plan);
    lemma_copies_byte_identical(fs, plan);
    assert forall|i: int|
        0 <= i < plan.len() implies fs1.dom().contains((#[trigger] plan[i]).0)
        && fs1.dom().contains(plan[i].1) && fs1[plan[i].1] == fs1[plan[i].0] by {
        lemma_copies_frame(fs, plan, plan[i].0);
        assert(fs1.dom().contains(plan[i].0) && fs1[plan[i].0] == fs[plan[i].0]);
        assert(fs1[plan[i].1] == fs[plan[i].0]);
    }
    lemma_copies_noop(fs1, plan);
}


/// The artifact layout of a package plan is safe to copy: no destination
/// under the package directory doubles as a staging source, and the six
/// destinations are pairwise distinct — whatever the package is called.
pub proof fn lemma_artifact_paths_disjoint(out: Seq<char>, u: Seq<char>, ext: Seq<char>)
    requires
        ext == ".sys"@ || ext == ".dll"@,
    ensures
        forall|i: int, j: int|
            0 <= i < 6 && 0 <= j < 6 ==> (#[trigger] artifact_pairs(out, u, ext)[i]).1
                != (#[trigger] artifact_pairs(out, u, ext)[j]).0,
        forall|i: int, j: int|
            0 <= i < j < 6 ==> (#[trigger] artifact_pairs(out, u, ext)[i]).1 != (
            #[trigger] artifact_pairs(out, u, ext)[j]).1,
{
    reveal_strlit("/");
    reveal_strlit("_package");
    reveal_strlit(".sys");
    reveal_strlit(".dll");
    reveal_strlit(".pdb");
    reveal_strlit(".map");
    reveal_strlit(".inf");
    reveal_strlit(".cat");
    reveal_strlit("/deps/");
    reveal_strlit("/WDRLocalTestCert.cer");
    let ap = artifact_pairs(out, u, ext);
    let el = out.len() as int;
    let n = u.len() as int;
    let pkg = out + "/"@ + u + "_package"@;
    assert(ext.len() == 4);
    assert(pkg.len() == el + n + 9);
    assert(ap[0].0.len() == el + n + 5);
    assert(ap[1].0.len() == el + n + 5);
    assert(ap[2].0.len() == el + n + 10);
    assert(ap[3].0.len() == el + n + 5);
    assert(ap[4].0.len() == el + n + 5);
    assert(ap[5].0.len() == el + 21);
    assert(ap[0].1.len() == el + 2 * n + 14);
    assert(ap[1].1.len() == el + 2 * n + 14);
    assert(ap[2].1.len() == el + 2 * n + 14);
    assert(ap[3].1.len() == el + 2 * n + 14);
    assert(ap[4].1.len() == el + 2 * n + 14);
    assert(ap[5].1.len() == el + n + 30);
    // no destination has the length of any source
        assert(ap[0].1 != ap[0].0);
        assert(ap[0].1 != ap[1].0);
        assert(ap[0].1 != ap[2].0);
        assert(ap[0].1 != ap[3].0);
        assert(ap[0].1 != ap[4].0);
        assert(ap[0].1 != ap[5].0);
        assert(ap[1].1 != ap[0].0);
        assert(ap[1].1 != ap[1].0);
        assert(ap[1].1 != ap[2].0);
        assert(ap[1].1 != ap[3].0);
        assert(ap[1].1 != ap[4].0);
        assert(ap[1].1 != ap[5].0);
        assert(ap[2].1 != ap[0].0);
        assert(ap[2].1 != ap[1].0);
        assert(ap[2].1 != ap[2].0);
        assert(ap[2].1 != ap[3].0);
        assert(ap[2].1 != ap[4].0);
        assert(ap[2].1 != ap[5].0);
        assert(ap[3].1 != ap[0].0);
        assert(ap[3].1 != ap[1].0);
        assert(ap[3].1 != ap[2].0);
        assert(ap[3].1 != ap[3].0);
        assert(ap[3].1 != ap[4].0);
        assert(ap[3].1 != ap[5].0);
        assert(ap[4].1 != ap[0].0);
        assert(ap[4].1 != ap[1].0);
        assert(ap[4].1 != ap[2].0);
        assert(ap[4].1 != ap[3].0);
        assert(ap[4].1 != ap[4].0);
        assert(ap[4].1 != ap[5].0);
        assert(ap[5].1 != ap[0].0);
        assert(ap[5].1 != ap[1].0);
        assert(ap[5].1 != ap[2].0);
        assert(ap[5].1 != ap[3].0);
        assert(ap[5].1 != ap[4].0);
        assert(ap[5].1 != ap[5].0);
    // the five names under the package directory differ in their extension
    let idx = el + 2 * n + 11;
    assert(ap[0].1[idx] == ext[1]);
    assert(ap[1].1[idx] == ".pdb"@[1] && ".pdb"@[1] == 'p');
    assert(ap[2].1[idx] == ".map"@[1] && ".map"@[1] == 'm');
    assert(ap[3].1[idx] == ".inf"@[1] && ".inf"@[1] == 'i');
    assert(ap[4].1[idx] == ".cat"@[1] && ".cat"@[1] == 'c');
    assert(ext[1] == 's' || ext[1] == 'd');
    assert(ap[0].1 != ap[1].1);
    assert(ap[0].1 != ap[2].1);
    assert(ap[0].1 != ap[3].1);
    assert(ap[0].1 != ap[4].1);
    assert(ap[1].1 != ap[2].1);
    assert(ap[1].1 != ap[3].1);
    assert(ap[1].1 != ap[4].1);
    assert(ap[2].1 != ap[3].1);
    assert(ap[2].1 != ap[4].1);
    assert(ap[3].1 != ap[4].1);
    // the certificate's name cannot collide with any of them either
    assert(ap[0].1 != ap[5].1) by {
        if ap[0].1 == ap[5].1 {
            assert(n == 16);
            assert(ap[5].1[el + n + 9 + 19] == "/WDRLocalTestCert.cer"@[19]);
            assert("/WDRLocalTestCert.cer"@[19] == 'e');
            assert(ap[0].1[el + n + 9 + 19] == ext[2]);
            assert(ext[2] == 'y' || ext[2] == 'l');
            assert(false);
        }
    }
    assert(ap[1].1 != ap[5].1) by {
        if ap[1].1 == ap[5].1 {
            assert(n == 16);
            assert(ap[5].1[el + n + 9 + 19] == "/WDRLocalTestCert.cer"@[19]);
            assert(ap[1].1[el + n + 9 + 19] == ".pdb"@[2] && ".pdb"@[2] == 'd');
            assert(false);
        }
    }
    assert(ap[2].1 != ap[5].1) by {
        if ap[2].1 == ap[5].1 {
            assert(n == 16);
            assert(ap[5].1[el + n + 9 + 19] == "/WDRLocalTestCert.cer"@[19]);
            assert(ap[2].1[el + n + 9 + 19] == ".map"@[2] && ".map"@[2] == 'a');
            assert(false);
        }
    }
    assert(ap[3].1 != ap[5].1) by {
        if ap[3].1 == ap[5].1 {
            assert(n == 16);
            assert(ap[5].1[el + n + 9 + 19] == "/WDRLocalTestCert.cer"@[19]);
            assert(ap[3].1[el + n + 9 + 19] == ".inf"@[2] && ".inf"@[2] == 'n');
            assert(false);
        }
    }
    assert(ap[4].1 != ap[5].1) by {
        if ap[4].1 == ap[5].1 {
            assert(n == 16);
            assert(ap[5].1[el + n + 9 + 19] == "/WDRLocalTestCert.cer"@[19]);
            assert(ap[4].1[el + n + 9 + 19] == ".cat"@[2] && ".cat"@[2] == 'a');
            assert(false);
        }
    }
    assert forall|i: int, j: int|
        0 <= i < 6 && 0 <= j < 6 implies (#[trigger] ap[i]).1 != (#[trigger] ap[j]).0 by {
        assert(i == 0 || i == 1 || i == 2 || i == 3 || i == 4 || i == 5);
        assert(j == 0 || j == 1 || j == 2 || j == 3 || j == 4 || j == 5);
    }
    assert forall|i: int, j: int|
        0 <= i < j < 6 implies (#[trigger] ap[i]).1 != (#[trigger] ap[j]).1 by {
        assert(i == 0 || i == 1 || i == 2 || i == 3 || i == 4);
        assert(j == 1 || j == 2 || j == 3 || j == 4 || j == 5);
    }
}


/// Every driver member that reaches the packaged state has its artifacts —
/// the linker map, the symbols and the certificate among them — inside the
/// package directory byte-identical to their pre-copy source files: the
/// completed copy stage duplicates each of the six sources exactly.
pub proof fn lemma_packaged_artifacts_byte_identical(
    fs: Map<Seq<char>, Seq<u8>>,
    out: Seq<char>,
    u: Seq<char>,
    ext: Seq<char>,
)
    requires
        ext == ".sys"@ || ext == ".dll"@,
        forall|i: int|
            0 <= i < 6 ==> fs.dom().contains(
                (#[trigger] artifact_pairs(out, u, ext)[i]).0,
            ),
    ensures
        forall|i: int|
            0 <= i < 6 ==> apply_copies(fs, artifact_pairs(out, u, ext)).dom().contains(
                (#[trigger] artifact_pairs(out, u, ext)[i]).1,
            ) && apply_copies(fs, artifact_pairs(out, u, ext))[artifact_pairs(
                out,
                u,
                ext,
            )[i].1] == fs[artifact_pairs(out, u, ext)[i].0],
{
    lemma_artifact_paths_disjoint(out, u, ext);
    lemma_copies_byte_identical(fs, artifact_pairs(out, u, ext));
}

/// Running the package's copy stage twice over an unchanged workspace is
/// idempotent: the second run's package directory contents are exactly the
/// first run's.
pub proof fn lemma_packaged_artifacts_idempotent(
    fs: Map<Seq<char>, Seq<u8>>,
    out: Seq<char>,
    u: Seq<char>,
    ext: Seq<char>,
)
    requires
        ext == ".sys"@ || ext == ".dll"@,
        forall|i: int|
            0 <= i < 6 ==> fs.dom().contains(
                (#[trigger] artifact_pairs(out, u, ext)[i]).0,
            ),
    ensures
        apply_copies(
            apply_copies(fs, artifact_pairs(out, u, ext)),
            artifact_pairs(out, u, ext),
        ) == apply_copies(fs, artifact_pairs(out, u, ext)),
{
    lemma_artifact_paths_disjoint(out, u, ext);
    lemma_copy_plan_idempotent(fs, artifact_pairs(out, u, ext));
}

} // verus!
