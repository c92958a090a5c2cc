//! How the driver moves through the stages: one child at a time, stopping at
//! the first that fails.

use vstd::prelude::*;

verus! {

/// The exit status of the driver after an error of its own (a bad command
/// line, an unfit compiler, missing project data).
pub const DRIVER_ERROR_EXIT: i32 = 1;

/// What the driver does next.
#[derive(Clone, Copy, Debug, PartialEq, Eq, Structural)]
pub enum Step {
    /// Spawn the stage with this index and wait for it.
    Spawn(usize),
    /// Exit the process with this status.
    Exit(i32),
}

/// The driver's exit status for a failed child: its own code, or 1 when it
/// ended without one (killed by a signal).
pub open spec fn failure_status(code: Option<i32>) -> i32 {
    match code {
        Some(c) => c,
        None => 1,
    }
}

pub open spec fn succeeded(code: Option<i32>) -> bool {
    code == Some(0i32)
}

/// After stage `k` of `total` ended with `code`.
pub open spec fn next_step(k: usize, total: usize, code: Option<i32>) -> Step {
    if succeeded(code) {
        if k + 1 < total {
            Step::Spawn((k + 1) as usize)
        } else {
            Step::Exit(0)
        }
    } else {
        Step::Exit(failure_status(code))
    }
}

/// The first step of a run of `total` stages.
pub fn first_step(total: usize) -> (r: Step)
    ensures
        total == 0 ==> r == Step::Exit(0),
        total > 0 ==> r == Step::Spawn(0),
{
    if total == 0 {
        Step::Exit(0)
    } else {
        Step::Spawn(0)
    }
}

/// The step after stage `k` of `total` ended with exit code `code` (`None`
/// when the child ended without a code).
pub fn after_stage(k: usize, total: usize, code: Option<i32>) -> (r: Step)
    requires
        k < total,
    ensures
        r == next_step(k, total, code),
{
    match code {
        Some(0) => {
            if k + 1 < total {
                Step::Spawn(k + 1)
            } else {
                Step::Exit(0)
            }
        },
        Some(c) => Step::Exit(c),
        None => Step::Exit(1),
    }
}

/// Runs from stage `k` when stage `i` would end with `codes[i]`: the number
/// of stages spawned in all, and the driver's exit status.
pub open spec fn run_from(k: usize, total: usize, codes: Seq<Option<i32>>) -> (nat, i32)
    decreases total - k,
{
    if k >= total {
        (k as nat, 0)
    } else {
        match next_step(k, total, codes[k as int]) {
            Step::Spawn(j) => if k < j {
                run_from(j, total, codes)
            } else {
                ((k + 1) as nat, 0)
            },
            Step::Exit(c) => ((k + 1) as nat, c),
        }
    }
}

/// A whole run of `total` stages.
pub open spec fn run(total: usize, codes: Seq<Option<i32>>) -> (nat, i32) {
    run_from(0, total, codes)
}

proof fn lemma_run_until_failure(k: usize, fail: usize, total: usize, codes: Seq<Option<i32>>)
    requires
        k <= fail < total <= codes.len(),
        forall|j: int| 0 <= j < fail ==> succeeded(#[trigger] codes[j]),
        !succeeded(codes[fail as int]),
    ensures
        run_from(k, total, codes) == ((fail + 1) as nat, failure_status(codes[fail as int])),
    decreases fail - k,
{
    if k < fail {
        assert(succeeded(codes[k as int]));
        lemma_run_until_failure((k + 1) as usize, fail, total, codes);
    }
}

proof fn lemma_run_to_end(k: usize, total: usize, codes: Seq<Option<i32>>)
    requires
        k < total <= codes.len(),
        forall|j: int| 0 <= j < total ==> succeeded(#[trigger] codes[j]),
    ensures
        run_from(k, total, codes) == (total as nat, 0i32),
    decreases total - k,
{
    assert(succeeded(codes[k as int]));
    if k + 1 < total {
        lemma_run_to_end((k + 1) as usize, total, codes);
    }
}

/// When stage `fail` is the first to end with a code other than 0, the driver
/// exits with that code (1 when there is none), and no stage after it is
/// spawned.
pub proof fn lemma_failure_propagates(fail: usize, total: usize, codes: Seq<Option<i32>>)
    requires
        fail < total <= codes.len(),
        forall|j: int| 0 <= j < fail ==> succeeded(#[trigger] codes[j]),
        !succeeded(codes[fail as int]),
    ensures
        run(total, codes) == ((fail + 1) as nat, failure_status(codes[fail as int])),
        failure_status(codes[fail as int]) != 0,
{
    lemma_run_until_failure(0, fail, total, codes);
}

/// When every stage succeeds, all of them are spawned and the driver exits 0.
pub proof fn lemma_success_runs_all(total: usize, codes: Seq<Option<i32>>)
    requires
        0 < total <= codes.len(),
        forall|j: int| 0 <= j < total ==> succeeded(#[trigger] codes[j]),
    ensures
        run(total, codes) == (total as nat, 0i32),
{
    lemma_run_to_end(0, total, codes);
}

} // verus!
