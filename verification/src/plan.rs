//! Planning: which files of a listing are converted, skipped or deleted,
//! which base-path files a sweep removes, and how a run's per-unit outcomes
//! decide renaming and sweeping.

use vstd::prelude::*;

use crate::errors::AppError;
use crate::names::{classify, classify_name, is_canonical, is_canonical_name, FileAction};

verus! {

/// The views of a sequence of owned strings, in order.
pub open spec fn views(names: Seq<String>) -> Seq<Seq<char>>
    decreases names.len(),
{
    if names.len() == 0 {
        Seq::empty()
    } else {
        views(names.drop_last()).push(names.last()@)
    }
}

/// The subsequence of `names` classified as `action`, in order.
pub open spec fn bucket_of(names: Seq<Seq<char>>, action: FileAction) -> Seq<Seq<char>>
    decreases names.len(),
{
    if names.len() == 0 {
        Seq::empty()
    } else if classify_name(names.last()) == action {
        bucket_of(names.drop_last(), action).push(names.last())
    } else {
        bucket_of(names.drop_last(), action)
    }
}

/// The base-path file names a sweep deletes: those failing the validator.
pub open spec fn sweep_deletes(names: Seq<Seq<char>>) -> Seq<Seq<char>>
    decreases names.len(),
{
    if names.len() == 0 {
        Seq::empty()
    } else if !is_canonical_name(names.last()) {
        sweep_deletes(names.drop_last()).push(names.last())
    } else {
        sweep_deletes(names.drop_last())
    }
}

/// The base-path file names a sweep leaves in place: the canonical ones.
pub open spec fn sweep_keeps(names: Seq<Seq<char>>) -> Seq<Seq<char>>
    decreases names.len(),
{
    if names.len() == 0 {
        Seq::empty()
    } else if is_canonical_name(names.last()) {
        sweep_keeps(names.drop_last()).push(names.last())
    } else {
        sweep_keeps(names.drop_last())
    }
}

/// What the Directory Processor does with one subdirectory listing: the
/// files to convert, the files to leave untouched, and the files to delete.
pub struct DirPlan {
    pub convert: Vec<String>,
    pub skip: Vec<String>,
    pub delete: Vec<String>,
}

/// Collect, in order, the file names of `files` that classify as `action`.
fn filter_by_action(files: &Vec<String>, action: FileAction) -> (r: Vec<String>)
    ensures
        views(r@) == bucket_of(views(files@), action),
{
    let mut out: Vec<String> = Vec::new();
    let n = files.len();
    let mut idx: usize = 0;
    proof {
        assert(files@.take(0) =~= Seq::<String>::empty());
    }
    while idx < n
        invariant
            n == files@.len(),
            0 <= idx <= n,
            views(out@) == bucket_of(views(files@.take(idx as int)), action),
        decreases n - idx,
    {
        let ghost pre_out = out@;
        let ghost w = views(files@.take(idx as int));
        let ghost x = files@[idx as int]@;
        proof {
            assert(files@.take(idx + 1).drop_last() =~= files@.take(idx as int));
            assert(files@.take(idx + 1).last() == files@[idx as int]);
            assert(views(files@.take(idx + 1)) == w.push(x));
            assert(w.push(x).drop_last() =~= w);
            assert(w.push(x).last() == x);
        }
        let name = &files[idx];
        let a = classify(name.as_str());
        if a == action {
            let cloned = name.clone();
            out.push(cloned);
            proof {
                assert(out@.drop_last() =~= pre_out);
                assert(out@.last() == cloned);
                assert(views(out@) == views(pre_out).push(cloned@));
                assert(bucket_of(w.push(x), action) == bucket_of(w, action).push(x));
            }
        } else {
            proof {
                assert(bucket_of(w.push(x), action) == bucket_of(w, action));
            }
        }
        idx += 1;
    }
    proof {
        assert(files@.take(n as int) =~= files@);
    }
    out
}

/// Plan one subdirectory: every listed file name lands in exactly the bucket
/// the classification rule gives it, in listing order.
pub fn plan_directory(files: &Vec<String>) -> (p: DirPlan)
    ensures
        views(p.convert@) == bucket_of(views(files@), FileAction::Convert),
        views(p.skip@) == bucket_of(views(files@), FileAction::Skip),
        views(p.delete@) == bucket_of(views(files@), FileAction::Delete),
{
    let convert = filter_by_action(files, FileAction::Convert);
    let skip = filter_by_action(files, FileAction::Skip);
    let delete = filter_by_action(files, FileAction::Delete);
    DirPlan { convert, skip, delete }
}

/// Plan the base sweep: the files to delete are exactly those whose names
/// fail the validator, in listing order.
pub fn plan_sweep(files: &Vec<String>) -> (d: Vec<String>)
    ensures
        views(d@) == sweep_deletes(views(files@)),
{
    let mut out: Vec<String> = Vec::new();
    let n = files.len();
    let mut idx: usize = 0;
    proof {
        assert(files@.take(0) =~= Seq::<String>::empty());
    }
    while idx < n
        invariant
            n == files@.len(),
            0 <= idx <= n,
            views(out@) == sweep_deletes(views(files@.take(idx as int))),
        decreases n - idx,
    {
        let ghost pre_out = out@;
        let ghost w = views(files@.take(idx as int));
        let ghost x = files@[idx as int]@;
        proof {
            assert(files@.take(idx + 1).drop_last() =~= files@.take(idx as int));
            assert(files@.take(idx + 1).last() == files@[idx as int]);
            assert(views(files@.take(idx + 1)) == w.push(x));
            assert(w.push(x).drop_last() =~= w);
            assert(w.push(x).last() == x);
        }
        let name = &files[idx];
        if !is_canonical(name.as_str()) {
            let cloned = name.clone();
            out.push(cloned);
            proof {
                assert(out@.drop_last() =~= pre_out);
                assert(out@.last() == cloned);
                assert(views(out@) == views(pre_out).push(cloned@));
                assert(sweep_deletes(w.push(x)) == sweep_deletes(w).push(x));
            }
        } else {
            proof {
                assert(sweep_deletes(w.push(x)) == sweep_deletes(w));
            }
        }
        idx += 1;
    }
    proof {
        assert(files@.take(n as int) =~= files@);
    }
    out
}

/// Every name a sweep keeps is canonical.
pub proof fn lemma_sweep_keeps_canonical(names: Seq<Seq<char>>)
    ensures
        forall|i: int|
            0 <= i < sweep_keeps(names).len() ==> is_canonical_name(
                #[trigger] sweep_keeps(names)[i],
            ),
    decreases names.len(),
{
    if names.len() > 0 {
        let dl = names.drop_last();
        lemma_sweep_keeps_canonical(dl);
        assert forall|i: int| 0 <= i < sweep_keeps(names).len() implies is_canonical_name(
            #[trigger] sweep_keeps(names)[i],
        ) by {
            if is_canonical_name(names.last()) {
                assert(sweep_keeps(names) == sweep_keeps(dl).push(names.last()));
                if i < sweep_keeps(dl).len() {
                    assert(sweep_keeps(names)[i] == sweep_keeps(dl)[i]);
                }
            } else {
                assert(sweep_keeps(names) == sweep_keeps(dl));
            }
        }
    }
}

/// On a listing of canonical names only, a sweep deletes nothing.
pub proof fn lemma_sweep_of_canonical_is_empty(names: Seq<Seq<char>>)
    requires
        forall|i: int| 0 <= i < names.len() ==> is_canonical_name(#[trigger] names[i]),
    ensures
        sweep_deletes(names) == Seq::<Seq<char>>::empty(),
    decreases names.len(),
{
    if names.len() == 0 {
        assert(sweep_deletes(names) =~= Seq::<Seq<char>>::empty());
    } else {
        assert forall|i: int| 0 <= i < names.drop_last().len() implies is_canonical_name(
            #[trigger] names.drop_last()[i],
        ) by {
            assert(names.drop_last()[i] == names[i]);
        }
        lemma_sweep_of_canonical_is_empty(names.drop_last());
    }
}

/// Law: sweeping is idempotent. A sweep leaves exactly the canonical names
/// in place, and a second sweep over what the first one kept deletes
/// nothing.
pub proof fn lemma_sweep_idempotent(names: Seq<Seq<char>>)
    ensures
        sweep_deletes(sweep_keeps(names)) == Seq::<Seq<char>>::empty(),
{
    lemma_sweep_keeps_canonical(names);
    lemma_sweep_of_canonical_is_empty(sweep_keeps(names));
}

/// The position of the first failed unit of work, if any: `None` exactly
/// when every unit succeeded.
pub fn first_error(results: &Vec<Result<(), AppError>>) -> (r: Option<usize>)
    ensures
        match r {
            None => forall|i: int| 0 <= i < results@.len() ==> results@[i] is Ok,
            Some(i) => i < results@.len() && results@[i as int] is Err && (forall|j: int|
                0 <= j < i ==> results@[j] is Ok),
        },
{
    let n = results.len();
    let mut i: usize = 0;
    while i < n
        invariant
            n == results@.len(),
            0 <= i <= n,
            forall|j: int| 0 <= j < i ==> results@[j] is Ok,
        decreases n - i,
    {
        if results[i].is_err() {
            return Some(i);
        }
        i += 1;
    }
    None
}

/// True iff every unit of work succeeded: only then does a subdirectory get
/// renamed, and only then does the run go on to the base sweep.
pub fn all_succeeded(results: &Vec<Result<(), AppError>>) -> (r: bool)
    ensures
        r == (forall|i: int| 0 <= i < results@.len() ==> results@[i] is Ok),
{
    let first = first_error(results);
    first.is_none()
}

} // verus!
