use crate::outcome::{FatalError, FileOutcome, RunResult};
use vstd::multiset::{group_multiset_axioms, lemma_insert_len, lemma_multiset_empty_len, Multiset};
use vstd::prelude::*;
use vstd::seq_lib::group_to_multiset_ensures;

verus! {

/// The number of failed outcomes in `outs`.
pub open spec fn spec_failure_count(outs: Seq<FileOutcome>) -> int
    decreases outs.len(),
{
    if outs.len() == 0 {
        0
    } else {
        spec_failure_count(outs.drop_last()) + if outs.last() is Failure {
            1int
        } else {
            0int
        }
    }
}

/// The failure count never exceeds the number of outcomes, and outcomes that
/// are all of one kind pin it to the two extremes.
pub proof fn lemma_failure_count_bounds(outs: Seq<FileOutcome>)
    ensures
        0 <= spec_failure_count(outs) <= outs.len(),
        (forall|i: int| 0 <= i < outs.len() ==> outs[i] is Success) ==> spec_failure_count(outs)
            == 0,
        (forall|i: int| 0 <= i < outs.len() ==> outs[i] is Failure) ==> spec_failure_count(outs)
            == outs.len(),
    decreases outs.len(),
{
    if outs.len() > 0 {
        lemma_failure_count_bounds(outs.drop_last());
        assert(forall|i: int|
            0 <= i < outs.drop_last().len() ==> outs.drop_last()[i] == outs[i]);
    }
}

/// The classification of a run of `total` files of which `failures` failed.
pub open spec fn spec_classify(total: int, failures: int) -> RunResult
    recommends
        1 <= total,
        0 <= failures <= total,
{
    if failures == 0 {
        RunResult::Success
    } else if failures == total {
        RunResult::TotalFailure
    } else {
        RunResult::PartialFailure(failures as usize)
    }
}

/// The exit code reported at the process boundary: 0 for full success, the
/// failure count for a partial failure, -1 when every file failed, and -2 for
/// a fatal pre-flight error.
pub open spec fn spec_exit_code(outcome: Result<RunResult, FatalError>) -> int {
    match outcome {
        Ok(RunResult::Success) => 0,
        Ok(RunResult::PartialFailure(n)) => n as int,
        Ok(RunResult::TotalFailure) => -1,
        Err(_) => -2,
    }
}

/// Counts the failed outcomes of a finished batch.
pub fn count_failures(outcomes: &Vec<FileOutcome>) -> (n: usize)
    ensures
        n == spec_failure_count(outcomes@),
{
    let mut n: usize = 0;
    let mut i: usize = 0;
    proof {
        assert(outcomes@.take(0) =~= Seq::<FileOutcome>::empty());
    }
    while i < outcomes.len()
        invariant
            i <= outcomes@.len(),
            n == spec_failure_count(outcomes@.take(i as int)),
        decreases outcomes@.len() - i,
    {
        proof {
            assert(outcomes@.take(i as int + 1).drop_last() =~= outcomes@.take(i as int));
            assert(outcomes@.take(i as int + 1).last() == outcomes@[i as int]);
            lemma_failure_count_bounds(outcomes@.take(i as int));
        }
        match outcomes[i] {
            FileOutcome::Failure(_) => {
                n = n + 1;
            },
            FileOutcome::Success => {},
        }
        i += 1;
    }
    proof {
        assert(outcomes@.take(outcomes@.len() as int) =~= outcomes@);
    }
    n
}

/// Classifies a run from its total file count and failure count.
pub fn classify(total: usize, failures: usize) -> (r: RunResult)
    requires
        1 <= total,
        failures <= total,
    ensures
        r == spec_classify(total as int, failures as int),
{
    if failures == 0 {
        RunResult::Success
    } else if failures == total {
        RunResult::TotalFailure
    } else {
        RunResult::PartialFailure(failures)
    }
}

/// Classifies a finished batch directly from its per-file outcomes.
pub fn classify_outcomes(outcomes: &Vec<FileOutcome>) -> (r: RunResult)
    requires
        outcomes@.len() >= 1,
    ensures
        r == spec_classify(outcomes@.len() as int, spec_failure_count(outcomes@)),
{
    proof {
        lemma_failure_count_bounds(outcomes@);
    }
    let failures = count_failures(outcomes);
    classify(outcomes.len(), failures)
}

/// Maps a run's result to the process exit code.
pub fn exit_code(outcome: &Result<RunResult, FatalError>) -> (code: i32)
    requires
        (*outcome matches Ok(RunResult::PartialFailure(n)) ==> n <= 0x7fff_ffff),
    ensures
        code == spec_exit_code(*outcome),
{
    match outcome {
        Ok(RunResult::Success) => 0,
        Ok(RunResult::PartialFailure(n)) => *n as i32,
        Ok(RunResult::TotalFailure) => -1,
        Err(_) => -2,
    }
}

/// When every file of a non-empty batch converts successfully, the run
/// classifies as a full success and exits with code 0.
pub proof fn lemma_full_success(outs: Seq<FileOutcome>)
    requires
        outs.len() >= 1,
        forall|i: int| 0 <= i < outs.len() ==> outs[i] is Success,
    ensures
        spec_failure_count(outs) == 0,
        spec_classify(outs.len() as int, spec_failure_count(outs)) == RunResult::Success,
        spec_exit_code(Ok(spec_classify(outs.len() as int, spec_failure_count(outs)))) == 0,
{
    lemma_failure_count_bounds(outs);
}

/// When some but not all files of a batch fail, the run classifies as a
/// partial failure carrying the failure count, and the exit code equals that
/// count.
pub proof fn lemma_partial_failure(outs: Seq<FileOutcome>)
    requires
        outs.len() <= usize::MAX,
        0 < spec_failure_count(outs) < outs.len(),
    ensures
        spec_classify(outs.len() as int, spec_failure_count(outs)) == RunResult::PartialFailure(
            spec_failure_count(outs) as usize,
        ),
        spec_exit_code(Ok(spec_classify(outs.len() as int, spec_failure_count(outs))))
            == spec_failure_count(outs),
{
    lemma_failure_count_bounds(outs);
}

/// When every file of a non-empty batch fails, the run classifies as a total
/// failure and exits with the distinguished code -1.
pub proof fn lemma_total_failure(outs: Seq<FileOutcome>)
    requires
        outs.len() >= 1,
        forall|i: int| 0 <= i < outs.len() ==> outs[i] is Failure,
    ensures
        spec_failure_count(outs) == outs.len(),
        spec_classify(outs.len() as int, spec_failure_count(outs)) == RunResult::TotalFailure,
        spec_exit_code(Ok(spec_classify(outs.len() as int, spec_failure_count(outs)))) == -1,
{
    lemma_failure_count_bounds(outs);
}

/// Whether one outcome is a failure.
pub open spec fn is_failure(o: FileOutcome) -> bool {
    o is Failure
}

/// The failed outcomes among a batch's outcomes, taken without order.
pub open spec fn failure_multiset(m: Multiset<FileOutcome>) -> Multiset<FileOutcome> {
    m.filter(|o: FileOutcome| is_failure(o))
}

proof fn lemma_failure_multiset_insert(m: Multiset<FileOutcome>, x: FileOutcome)
    ensures
        failure_multiset(m.insert(x)) == (if is_failure(x) {
            failure_multiset(m).insert(x)
        } else {
            failure_multiset(m)
        }),
{
    broadcast use group_multiset_axioms;

    if is_failure(x) {
        assert(failure_multiset(m.insert(x)) =~= failure_multiset(m).insert(x));
    } else {
        assert(failure_multiset(m.insert(x)) =~= failure_multiset(m));
    }
}

/// The failure count of a batch is determined by the multiset of its
/// outcomes alone.
pub proof fn lemma_failure_count_from_multiset(s: Seq<FileOutcome>)
    ensures
        spec_failure_count(s) == failure_multiset(s.to_multiset()).len(),
    decreases s.len(),
{
    broadcast use group_multiset_axioms, group_to_multiset_ensures;

    if s.len() == 0 {
        lemma_multiset_empty_len(s.to_multiset());
        assert(s.to_multiset() =~= Multiset::<FileOutcome>::empty());
        assert(failure_multiset(Multiset::<FileOutcome>::empty())
            =~= Multiset::<FileOutcome>::empty());
    } else {
        let t = s.drop_last();
        let x = s.last();
        lemma_failure_count_from_multiset(t);
        assert(t.push(x) =~= s);
        assert(s.to_multiset() =~= t.to_multiset().insert(x));
        lemma_failure_multiset_insert(t.to_multiset(), x);
        if is_failure(x) {
            lemma_insert_len(failure_multiset(t.to_multiset()), x);
        }
    }
}

/// The classification of a run is a pure function of the multiset of its
/// per-file outcomes: two batches whose outcomes are the same up to order
/// classify identically.
pub proof fn lemma_classify_order_free(a: Seq<FileOutcome>, b: Seq<FileOutcome>)
    requires
        a.to_multiset() == b.to_multiset(),
    ensures
        a.len() == b.len(),
        spec_failure_count(a) == spec_failure_count(b),
        spec_classify(a.len() as int, spec_failure_count(a)) == spec_classify(
            b.len() as int,
            spec_failure_count(b),
        ),
{
    broadcast use group_to_multiset_ensures;

    assert(a.len() == a.to_multiset().len());
    assert(b.len() == b.to_multiset().len());
    lemma_failure_count_from_multiset(a);
    lemma_failure_count_from_multiset(b);
}

/// A fatal pre-flight error always exits with the distinguished code -2,
/// distinct from every code a converted batch can produce.
pub proof fn lemma_fatal_exit_code(f: FatalError)
    ensures
        spec_exit_code(Err(f)) == -2,
{
}

} // verus!
