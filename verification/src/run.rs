//! Whole runs of a script: how a run ends under given outcomes of its
//! steps, and what holds of every run.
//!
//! A run is the repetition of one rule, [`after`]. What this module states
//! of runs is what a driver can rely on whatever the browser answers: that
//! steps come in order, that a finished run has passed every wait, that a
//! click never goes without its element, and that a script put behind
//! another starts only where the first went through.

use crate::error::HarnessError;
use crate::script::{
    after, begin, lemma_after_moves_forward, lemma_past_users, past_users, spec_after, successor,
    Progress, Step,
};
use vstd::prelude::*;

verus! {

/// The outcome recorded for the step at `at`. A step without a record
/// counts as failed.
pub open spec fn recorded(oks: Seq<bool>, at: int) -> bool {
    0 <= at < oks.len() && oks[at]
}

/// How a whole run of the script ends, from the step at `at` on, when the
/// step at each index has the outcome recorded for it in `oks` if it is
/// performed at all.
pub open spec fn run_from(steps: Seq<Step>, oks: Seq<bool>, at: int) -> Result<(), HarnessError>
    decreases steps.len() - at,
{
    match spec_after(steps, at, recorded(oks, at)) {
        Progress::Finished => Ok(()),
        Progress::Failed(e) => Err(e),
        Progress::Next(j) => if at < j < steps.len() {
            run_from(steps, oks, j as int)
        } else {
            Ok(())
        },
    }
}

/// How a whole run of the script ends under the recorded outcomes.
pub open spec fn run(steps: Seq<Step>, oks: Seq<bool>) -> Result<(), HarnessError> {
    run_from(steps, oks, 0)
}

/// Whether the run that stands before the step at `at` comes to perform
/// the step at `k`.
pub open spec fn reaches(steps: Seq<Step>, oks: Seq<bool>, at: int, k: int) -> bool
    decreases steps.len() - at,
{
    if at == k {
        0 <= k < steps.len()
    } else if 0 <= at < k < steps.len() {
        match spec_after(steps, at, recorded(oks, at)) {
            Progress::Next(j) => if at < j < steps.len() {
                reaches(steps, oks, j as int, k)
            } else {
                false
            },
            _ => false,
        }
    } else {
        false
    }
}

/// One run after another: the second counts only where the first finished.
pub open spec fn and_then(first: Result<(), HarnessError>, second: Result<(), HarnessError>) -> Result<
    (),
    HarnessError,
> {
    match first {
        Ok(_) => second,
        Err(e) => Err(e),
    }
}

/// Whether a script can follow another without a step of it being passed
/// over for a failure in the first: it does not open with a step that uses
/// a located element.
pub open spec fn stands_alone(steps: Seq<Step>) -> bool {
    steps.len() == 0 || !steps[0].spec_uses_element()
}

/// Whether a survived failure passes over nothing in this script: no step
/// that uses a located element follows a step that survives its failure.
pub open spec fn skips_nothing(steps: Seq<Step>) -> bool {
    forall|k: int|
        0 <= k < steps.len() - 1 && (#[trigger] steps[k]).spec_failure() is None ==> !steps[k
            + 1].spec_uses_element()
}

/// Whether every step that uses a located element has something to use:
/// it stands directly behind a step that looks for an element, or behind
/// another step that uses the same one.
pub open spec fn well_formed(steps: Seq<Step>) -> bool {
    forall|k: int|
        0 <= k < steps.len() && (#[trigger] steps[k]).spec_uses_element() ==> k > 0 && (steps[k
            - 1].spec_locates() || steps[k - 1].spec_uses_element())
}

/// A run in which every step succeeds finishes.
pub proof fn lemma_run_of_successes(steps: Seq<Step>, oks: Seq<bool>, at: int)
    requires
        steps.len() <= usize::MAX,
        forall|k: int| 0 <= k < steps.len() ==> recorded(oks, k),
    ensures
        run_from(steps, oks, at) is Ok,
    decreases steps.len() - at,
{
    if 0 <= at < steps.len() && at + 1 < steps.len() {
        lemma_run_of_successes(steps, oks, at + 1);
    }
}

/// A run that finishes has performed every step that does not use a
/// located element, and each of those whose failure would have ended the
/// run has succeeded. No success of an earlier step stands in for it.
pub proof fn lemma_finished_run_passed(steps: Seq<Step>, oks: Seq<bool>, at: int, due: int)
    requires
        steps.len() <= usize::MAX,
        0 <= at <= due < steps.len(),
        !steps[due].spec_uses_element(),
        steps[due].spec_failure() is Some,
        run_from(steps, oks, at) is Ok,
    ensures
        recorded(oks, due),
    decreases steps.len() - at,
{
    if at < due {
        let ok = recorded(oks, at);
        lemma_after_moves_forward(steps, at, ok);
        match spec_after(steps, at, ok) {
            Progress::Next(j) => {
                assert(j <= due) by {
                    if j > due {
                        assert(steps[due].spec_uses_element());
                    }
                }
                lemma_finished_run_passed(steps, oks, j as int, due);
            },
            Progress::Finished => {
                lemma_past_users(steps, at + 1);
                if !ok {
                    assert(steps[due].spec_uses_element());
                }
            },
            Progress::Failed(_) => {},
        }
    }
}

/// A run that fails ends with the failure of a step of the script that was
/// performed and did not succeed: the failing step's own kind of failure
/// is what comes out.
pub proof fn lemma_failed_run_names_a_step(steps: Seq<Step>, oks: Seq<bool>, at: int)
    requires
        steps.len() <= usize::MAX,
        0 <= at,
        run_from(steps, oks, at) is Err,
    ensures
        exists|k: int|
            reaches(steps, oks, at, k) && !recorded(oks, k) && (#[trigger] steps[k]).spec_failure()
                == Some(run_from(steps, oks, at)->Err_0),
    decreases steps.len() - at,
{
    if at < steps.len() {
        let ok = recorded(oks, at);
        match spec_after(steps, at, ok) {
            Progress::Next(j) => {
                lemma_after_moves_forward(steps, at, ok);
                lemma_failed_run_names_a_step(steps, oks, j as int);
                let k = choose|k: int|
                    reaches(steps, oks, j as int, k) && !recorded(oks, k) && (
                    #[trigger] steps[k]).spec_failure() == Some(
                        run_from(steps, oks, j as int)->Err_0,
                    );
                lemma_reaches_forward(steps, oks, j as int, k);
                assert(reaches(steps, oks, at, k));
            },
            Progress::Finished => {},
            Progress::Failed(_) => {
                assert(reaches(steps, oks, at, at) && !recorded(oks, at) && steps[at].spec_failure()
                    == Some(run_from(steps, oks, at)->Err_0));
            },
        }
    }
}

/// What a run comes to perform lies ahead of it, inside the script.
pub proof fn lemma_reaches_forward(steps: Seq<Step>, oks: Seq<bool>, at: int, k: int)
    requires
        reaches(steps, oks, at, k),
    ensures
        0 <= at <= k < steps.len(),
{
}

/// Inside the first of two scripts, passing over users ends where it ends
/// in the first alone.
proof fn lemma_past_users_in_first(a: Seq<Step>, b: Seq<Step>, from: int)
    requires
        stands_alone(b),
        0 <= from <= a.len(),
    ensures
        past_users(a + b, from) == past_users(a, from),
    decreases a.len() - from,
{
    if from < a.len() {
        assert((a + b)[from] == a[from]);
        if a[from].spec_uses_element() {
            lemma_past_users_in_first(a, b, from + 1);
        }
    } else if b.len() > 0 {
        assert((a + b)[from] == b[0]);
    }
}

/// Inside the second of two scripts, passing over users ends where it ends
/// in the second alone, moved by the length of the first.
proof fn lemma_past_users_in_second(a: Seq<Step>, b: Seq<Step>, from: int)
    requires
        0 <= from <= b.len(),
    ensures
        past_users(a + b, a.len() + from) == a.len() + past_users(b, from),
    decreases b.len() - from,
{
    if from < b.len() {
        assert((a + b)[a.len() + from] == b[from]);
        if b[from].spec_uses_element() {
            lemma_past_users_in_second(a, b, from + 1);
        }
    }
}

/// From a step of the second script on, the run of both is the run of the
/// second.
proof fn lemma_run_in_second(a: Seq<Step>, b: Seq<Step>, oks: Seq<bool>, from: int)
    requires
        a.len() + b.len() <= usize::MAX,
        a.len() <= oks.len(),
        0 <= from <= b.len(),
    ensures
        run_from(a + b, oks, a.len() + from) == run_from(b, oks.skip(a.len() as int), from),
    decreases b.len() - from,
{
    if from < b.len() {
        let at = a.len() + from;
        let ok = recorded(oks, at);
        assert(recorded(oks.skip(a.len() as int), from) == ok);
        assert((a + b)[at] == b[from]);
        lemma_past_users_in_second(a, b, from + 1);
        lemma_past_users(b, from + 1);
        if ok || b[from].spec_failure() is None {
            let next = successor(b, from, ok);
            assert(successor(a + b, at, ok) == a.len() + next);
            if next < b.len() {
                lemma_run_in_second(a, b, oks, next);
            }
        }
    }
}

/// A run of two scripts in a row is the run of the first and then, where
/// that finished, the run of the second, each under its own part of the
/// recorded outcomes. Nothing of the second is performed after a failure
/// of the first, and nothing of it is passed over for one.
pub proof fn lemma_run_in_sequence(a: Seq<Step>, b: Seq<Step>, oks: Seq<bool>)
    requires
        a.len() + b.len() <= usize::MAX,
        a.len() <= oks.len(),
        stands_alone(b),
    ensures
        run(a + b, oks) == and_then(
            run(a, oks.take(a.len() as int)),
            run(b, oks.skip(a.len() as int)),
        ),
{
    lemma_run_in_first(a, b, oks, 0);
}

/// From a step of the first script on, the run of both is the rest of the
/// first and then the second.
proof fn lemma_run_in_first(a: Seq<Step>, b: Seq<Step>, oks: Seq<bool>, from: int)
    requires
        a.len() + b.len() <= usize::MAX,
        a.len() <= oks.len(),
        stands_alone(b),
        0 <= from <= a.len(),
    ensures
        run_from(a + b, oks, from) == and_then(
            run_from(a, oks.take(a.len() as int), from),
            run(b, oks.skip(a.len() as int)),
        ),
    decreases a.len() - from,
{
    if from < a.len() {
        let ok = recorded(oks, from);
        assert(recorded(oks.take(a.len() as int), from) == ok);
        assert((a + b)[from] == a[from]);
        lemma_past_users_in_first(a, b, from + 1);
        lemma_past_users(a, from + 1);
        if ok || a[from].spec_failure() is None {
            let next = successor(a, from, ok);
            assert(successor(a + b, from, ok) == next);
            if next < a.len() {
                lemma_run_in_first(a, b, oks, next);
            } else {
                lemma_run_in_second(a, b, oks, 0);
            }
        }
    } else {
        lemma_run_in_second(a, b, oks, 0);
    }
}

/// In a script in which a survived failure passes over nothing, every
/// step is performed until one ends the run: the run finishes exactly when
/// each step succeeds or survives its failure.
pub proof fn lemma_run_skipping_nothing(steps: Seq<Step>, oks: Seq<bool>, at: int)
    requires
        steps.len() <= usize::MAX,
        0 <= at,
        skips_nothing(steps),
    ensures
        run_from(steps, oks, at) is Ok <==> (forall|k: int|
            at <= k < steps.len() ==> recorded(oks, k) || (#[trigger] steps[k]).spec_failure()
                is None),
    decreases steps.len() - at,
{
    if at < steps.len() {
        let ok = recorded(oks, at);
        if ok || steps[at].spec_failure() is None {
            assert(successor(steps, at, ok) == at + 1) by {
                if !ok && at + 1 < steps.len() {
                    assert(!steps[at + 1].spec_uses_element());
                }
            }
            lemma_run_skipping_nothing(steps, oks, at + 1);
            if run_from(steps, oks, at) is Ok {
                assert forall|k: int| at <= k < steps.len() implies recorded(oks, k) || (
                #[trigger] steps[k]).spec_failure() is None by {
                    if k > at {
                    }
                }
            }
        }
    }
}

/// A step that uses a located element is performed only directly after a
/// step that was performed and succeeded.
pub proof fn lemma_user_follows_success(steps: Seq<Step>, oks: Seq<bool>, at: int, k: int)
    requires
        steps.len() <= usize::MAX,
        at < k,
        reaches(steps, oks, at, k),
        steps[k].spec_uses_element(),
    ensures
        reaches(steps, oks, at, k - 1),
        recorded(oks, k - 1),
    decreases steps.len() - at,
{
    let ok = recorded(oks, at);
    lemma_after_moves_forward(steps, at, ok);
    match spec_after(steps, at, ok) {
        Progress::Next(j) => {
            if j < k {
                lemma_user_follows_success(steps, oks, j as int, k);
                assert(reaches(steps, oks, at, k - 1));
            } else {
                assert(reaches(steps, oks, j as int, k));
                assert(ok && at == k - 1);
            }
        },
        _ => {},
    }
}

/// In a well-formed script no click and no measurement is performed
/// without its element: whenever a run performs a step that uses a located
/// element, it has performed a lookup before it that found one, and
/// between the two nothing but steps on the same element.
pub proof fn lemma_element_was_located(steps: Seq<Step>, oks: Seq<bool>, k: int)
    requires
        steps.len() <= usize::MAX,
        well_formed(steps),
        reaches(steps, oks, 0, k),
        steps[k].spec_uses_element(),
    ensures
        exists|l: int|
            0 <= l < k && (#[trigger] steps[l]).spec_locates() && recorded(oks, l) && reaches(
                steps,
                oks,
                0,
                l,
            ) && (forall|m: int| l < m < k ==> (#[trigger] steps[m]).spec_uses_element()),
    decreases k,
{
    lemma_user_follows_success(steps, oks, 0, k);
    if steps[k - 1].spec_locates() {
        assert(steps[k - 1].spec_locates() && recorded(oks, k - 1));
    } else {
        lemma_element_was_located(steps, oks, k - 1);
        let l = choose|l: int|
            0 <= l < k - 1 && (#[trigger] steps[l]).spec_locates() && recorded(oks, l) && reaches(
                steps,
                oks,
                0,
                l,
            ) && (forall|m: int| l < m < k - 1 ==> (#[trigger] steps[m]).spec_uses_element());
        assert forall|m: int| l < m < k implies (#[trigger] steps[m]).spec_uses_element() by {
            if m == k - 1 {
            }
        }
    }
}

/// Two well-formed scripts in a row are well formed where the second
/// stands alone.
pub proof fn lemma_well_formed_in_sequence(a: Seq<Step>, b: Seq<Step>)
    requires
        well_formed(a),
        well_formed(b),
        stands_alone(b),
    ensures
        well_formed(a + b),
{
    let ab = a + b;
    assert forall|k: int| 0 <= k < ab.len() && (#[trigger] ab[k]).spec_uses_element() implies k > 0
        && (ab[k - 1].spec_locates() || ab[k - 1].spec_uses_element()) by {
        if k < a.len() {
            assert(ab[k] == a[k]);
            assert(ab[k - 1] == a[k - 1]);
        } else {
            assert(ab[k] == b[k - a.len()]);
            assert(k - a.len() > 0);
            assert(ab[k - 1] == b[k - a.len() - 1]);
        }
    }
}

/// Whether the script is well formed: whether each of its clicks and
/// measurements stands directly behind the lookup of its element, or
/// behind another click or measurement on it.
pub fn is_well_formed(steps: &Vec<Step>) -> (r: bool)
    ensures
        r == well_formed(steps@),
{
    let n = steps.len();
    let mut k: usize = 0;
    while k < n
        invariant
            k <= n,
            n == steps@.len(),
            forall|j: int|
                0 <= j < k && (#[trigger] steps@[j]).spec_uses_element() ==> j > 0 && (steps@[j
                    - 1].spec_locates() || steps@[j - 1].spec_uses_element()),
        decreases n - k,
    {
        if steps[k].uses_element() {
            if k == 0 {
                return false;
            }
            if !steps[k - 1].locates() && !steps[k - 1].uses_element() {
                return false;
            }
        }
        k = k + 1;
    }
    true
}

/// Runs the script against recorded outcomes, one for the step at each
/// index, and says how the run ends. This is the loop a driver runs, with
/// the browser's answers read from a record; a step the record is too
/// short for counts as failed.
pub fn replay(steps: &Vec<Step>, oks: &Vec<bool>) -> (r: Result<(), HarnessError>)
    ensures
        r == run(steps@, oks@),
{
    let n = steps.len();
    let mut progress = begin(steps);
    loop
        invariant
            n == steps@.len(),
            match progress {
                Progress::Next(at) => at < steps@.len() && run(steps@, oks@) == run_from(
                    steps@,
                    oks@,
                    at as int,
                ),
                Progress::Finished => run(steps@, oks@) == Ok::<(), HarnessError>(()),
                Progress::Failed(e) => run(steps@, oks@) == Err::<(), HarnessError>(e),
            },
        decreases
                match progress {
                    Progress::Next(at) => steps@.len() - at,
                    _ => 0,
                },
    {
        match progress {
            Progress::Finished => {
                return Ok(());
            },
            Progress::Failed(e) => {
                return Err(e);
            },
            Progress::Next(at) => {
                let ok = at < oks.len() && oks[at];
                proof {
                    lemma_after_moves_forward(steps@, at as int, ok);
                }
                progress = after(steps, at, ok);
            },
        }
    }
}

} // verus!
