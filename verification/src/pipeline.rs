//! The top-level pipeline: five sequential stages with fail-fast
//! semantics.
//!
//! Each state either owes one piece of outside work or is terminal.  A
//! stage's success advances to the next state; any failure moves
//! straight to the failed state, from which no further work is owed.
//! The run over a finite sequence of stage outcomes is a pure function
//! of those outcomes.

use vstd::prelude::*;

verus! {

/// The pipeline's states: the milestones the run has reached, the
/// reporting state after the last milestone, and the one terminal
/// failure state.
#[derive(Clone, Copy, PartialEq, Eq, Debug, Structural)]
pub enum Stage {
    Start,
    PrereqOk,
    EnvInspected,
    EnvProvisioned,
    DepsInstalled,
    DriverVerified,
    Done,
    Failed,
}

/// The piece of outside work each non-terminal state owes.
#[derive(Clone, Copy, PartialEq, Eq, Debug, Structural)]
pub enum StageWork {
    CheckManager,
    InspectEnvironments,
    ProvisionEnvironment,
    InstallDependencies,
    VerifyDriver,
}

/// The successor of each state on success.
pub open spec fn spec_next(s: Stage) -> Stage {
    match s {
        Stage::Start => Stage::PrereqOk,
        Stage::PrereqOk => Stage::EnvInspected,
        Stage::EnvInspected => Stage::EnvProvisioned,
        Stage::EnvProvisioned => Stage::DepsInstalled,
        Stage::DepsInstalled => Stage::DriverVerified,
        Stage::DriverVerified => Stage::Done,
        Stage::Done => Stage::Done,
        Stage::Failed => Stage::Failed,
    }
}

/// The work owed in each state; terminal states owe none.
pub open spec fn spec_stage_work(s: Stage) -> Option<StageWork> {
    match s {
        Stage::Start => Some(StageWork::CheckManager),
        Stage::PrereqOk => Some(StageWork::InspectEnvironments),
        Stage::EnvInspected => Some(StageWork::ProvisionEnvironment),
        Stage::EnvProvisioned => Some(StageWork::InstallDependencies),
        Stage::DepsInstalled => Some(StageWork::VerifyDriver),
        Stage::DriverVerified => None,
        Stage::Done => None,
        Stage::Failed => None,
    }
}

/// One transition: success advances, failure falls to the failed
/// state.
pub open spec fn spec_advance(s: Stage, ok: bool) -> Stage {
    if ok {
        spec_next(s)
    } else {
        Stage::Failed
    }
}

/// The state reached from `s` after consuming stage outcomes in order,
/// stopping when no work is owed or the outcomes run out.
pub open spec fn spec_run(s: Stage, outs: Seq<bool>) -> Stage
    decreases outs.len(),
{
    if spec_stage_work(s) is None || outs.len() == 0 {
        s
    } else {
        spec_run(spec_advance(s, outs[0]), outs.subrange(1, outs.len() as int))
    }
}

/// The work the given state owes.
pub fn stage_work(s: Stage) -> (r: Option<StageWork>)
    ensures
        r == spec_stage_work(s),
{
    match s {
        Stage::Start => Some(StageWork::CheckManager),
        Stage::PrereqOk => Some(StageWork::InspectEnvironments),
        Stage::EnvInspected => Some(StageWork::ProvisionEnvironment),
        Stage::EnvProvisioned => Some(StageWork::InstallDependencies),
        Stage::DepsInstalled => Some(StageWork::VerifyDriver),
        Stage::DriverVerified => None,
        Stage::Done => None,
        Stage::Failed => None,
    }
}

/// Performs one transition on a stage outcome.
pub fn advance(s: Stage, ok: bool) -> (r: Stage)
    ensures
        r == spec_advance(s, ok),
{
    if ok {
        match s {
            Stage::Start => Stage::PrereqOk,
            Stage::PrereqOk => Stage::EnvInspected,
            Stage::EnvInspected => Stage::EnvProvisioned,
            Stage::EnvProvisioned => Stage::DepsInstalled,
            Stage::DepsInstalled => Stage::DriverVerified,
            Stage::DriverVerified => Stage::Done,
            Stage::Done => Stage::Done,
            Stage::Failed => Stage::Failed,
        }
    } else {
        Stage::Failed
    }
}

/// Replays a finite run of stage outcomes from the start state.
pub fn pipeline_result(outcomes: &Vec<bool>) -> (r: Stage)
    ensures
        r == spec_run(Stage::Start, outcomes@),
{
    let ghost outs = outcomes@;
    proof {
        assert(outs.subrange(0, outs.len() as int) =~= outs);
    }
    let mut s = Stage::Start;
    let mut i: usize = 0;
    while i < outcomes.len()
        invariant
            outs == outcomes@,
            0 <= i <= outcomes.len(),
            spec_run(Stage::Start, outs) == spec_run(s, outs.subrange(i as int, outs.len() as int)),
        decreases outcomes.len() - i,
    {
        let ghost rest = outs.subrange(i as int, outs.len() as int);
        if stage_work(s).is_none() {
            assert(spec_run(s, rest) == s);
            return s;
        }
        proof {
            assert(rest[0] == outs[i as int]);
            assert(rest.subrange(1, rest.len() as int) =~= outs.subrange(
                i + 1,
                outs.len() as int,
            ));
        }
        s = advance(s, outcomes[i]);
        i = i + 1;
    }
    proof {
        assert(outs.subrange(i as int, outs.len() as int).len() == 0);
    }
    s
}

/// Closes a finished run: the success state yields the success banner
/// and moves to the reporting state; the failed state yields the
/// failure banner and stays failed.
pub fn conclude(s: Stage) -> (r: (Stage, &'static str))
    requires
        s is DriverVerified || s is Failed,
    ensures
        s is DriverVerified ==> r.0 is Done && r.1@ == "Finished all setup process successfully"@,
        s is Failed ==> r.0 is Failed && r.1@ == "Setup Failed"@,
{
    match s {
        Stage::DriverVerified => (Stage::Done, "Finished all setup process successfully"),
        _ => (Stage::Failed, "Setup Failed"),
    }
}

/// Fail-fast: whatever state owes work, a failed outcome there ends
/// the whole run in the failed state, and the failed state owes no
/// further work — no later stage is attempted.
pub proof fn lemma_failure_aborts(s: Stage, outs: Seq<bool>)
    requires
        outs.len() >= 1,
        !outs[0],
        spec_stage_work(s) is Some,
    ensures
        spec_run(s, outs) == Stage::Failed,
        spec_stage_work(Stage::Failed) is None,
{
    assert(spec_run(Stage::Failed, outs.subrange(1, outs.len() as int)) == Stage::Failed);
}

/// The one success path: five successful outcomes in order walk the
/// run from the start state through every milestone to the verified
/// state, from which only the reporting state follows.
pub proof fn lemma_success_path(outs: Seq<bool>)
    requires
        outs.len() == 5,
        forall|i: int| 0 <= i < 5 ==> outs[i],
    ensures
        spec_run(Stage::Start, outs) == Stage::DriverVerified,
{
    let o1 = outs.subrange(1, 5);
    let o2 = o1.subrange(1, 4);
    let o3 = o2.subrange(1, 3);
    let o4 = o3.subrange(1, 2);
    let o5 = o4.subrange(1, 1);
    assert(o2 =~= outs.subrange(2, 5));
    assert(o3 =~= outs.subrange(3, 5));
    assert(o4 =~= outs.subrange(4, 5));
    assert(spec_run(Stage::Start, outs) == spec_run(Stage::PrereqOk, o1));
    assert(spec_run(Stage::PrereqOk, o1) == spec_run(Stage::EnvInspected, o2));
    assert(spec_run(Stage::EnvInspected, o2) == spec_run(Stage::EnvProvisioned, o3));
    assert(spec_run(Stage::EnvProvisioned, o3) == spec_run(Stage::DepsInstalled, o4));
    assert(spec_run(Stage::DepsInstalled, o4) == spec_run(Stage::DriverVerified, o5));
    assert(spec_run(Stage::DriverVerified, o5) == Stage::DriverVerified);
}

/// One step backwards along a successful run: a state that owes work
/// can only reach the verified state through a successful outcome of
/// its own stage.
proof fn lemma_success_step(s: Stage, outs: Seq<bool>)
    requires
        spec_stage_work(s) is Some,
        spec_run(s, outs) == Stage::DriverVerified,
    ensures
        outs.len() >= 1,
        outs[0],
        spec_run(spec_next(s), outs.subrange(1, outs.len() as int)) == Stage::DriverVerified,
{
    if outs.len() == 0 {
        // the run would stop in s, which still owes work
        assert(spec_run(s, outs) == s);
        assert(false);
    }
    if !outs[0] {
        // the run would fall to the failed state and stay there
        assert(spec_run(s, outs) == spec_run(
            Stage::Failed,
            outs.subrange(1, outs.len() as int),
        ));
        assert(spec_run(Stage::Failed, outs.subrange(1, outs.len() as int)) == Stage::Failed);
        assert(false);
    }
}

/// The success path is the only one: a run from the start state reaches
/// the verified state only when each of the five stages succeeded in
/// order.
pub proof fn lemma_success_is_unique(outs: Seq<bool>)
    requires
        spec_run(Stage::Start, outs) == Stage::DriverVerified,
    ensures
        outs.len() >= 5,
        outs[0] && outs[1] && outs[2] && outs[3] && outs[4],
{
    let o1 = outs.subrange(1, outs.len() as int);
    lemma_success_step(Stage::Start, outs);
    let o2 = o1.subrange(1, o1.len() as int);
    lemma_success_step(Stage::PrereqOk, o1);
    let o3 = o2.subrange(1, o2.len() as int);
    lemma_success_step(Stage::EnvInspected, o2);
    let o4 = o3.subrange(1, o3.len() as int);
    lemma_success_step(Stage::EnvProvisioned, o3);
    lemma_success_step(Stage::DepsInstalled, o4);
    assert(outs[1] == o1[0]);
    assert(outs[2] == o2[0]);
    assert(outs[3] == o3[0]);
    assert(outs[4] == o4[0]);
}

} // verus!
