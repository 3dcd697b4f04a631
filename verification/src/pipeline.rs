//! The pipeline of one target as a state machine, and the report over all
//! targets. A pipeline moves by the outcome of the work of its stage; what
//! happens to one target changes nothing in the report of another.

use crate::error::PackError;
use vstd::prelude::*;
use vstd::string::*;

verus! {

/// Where the pipeline of a target stands.
#[derive(Debug, Clone, Copy, PartialEq, Eq, Structural)]
pub enum Stage {
    Pending,
    Resolving,
    Fingerprinting,
    Archiving,
    ChecksummingArchive,
    Uploading,
    Done,
}

/// The state of a pipeline: at a stage, or failed at one.
#[derive(Debug, Clone, PartialEq, Eq)]
pub enum Progress {
    At(Stage),
    Failed { stage: Stage, cause: PackError },
}

/// How the work of a stage ended.
#[derive(Debug, Clone, PartialEq, Eq)]
pub enum StageOutcome {
    Completed,
    Failed(PackError),
}

/// The stage that follows `stage` when its work is done. Uploading is
/// entered only where an upload is due.
pub open spec fn successor(stage: Stage, upload: bool) -> Stage {
    match stage {
        Stage::Pending => Stage::Resolving,
        Stage::Resolving => Stage::Fingerprinting,
        Stage::Fingerprinting => Stage::Archiving,
        Stage::Archiving => Stage::ChecksummingArchive,
        Stage::ChecksummingArchive => if upload {
            Stage::Uploading
        } else {
            Stage::Done
        },
        Stage::Uploading => Stage::Done,
        Stage::Done => Stage::Done,
    }
}

/// The state after `outcome`. A pipeline that is done or has failed stays
/// as it is; any other moves to the next stage, or fails at its own.
pub open spec fn advanced(progress: Progress, outcome: StageOutcome, upload: bool) -> Progress {
    match progress {
        Progress::At(Stage::Done) => progress,
        Progress::At(stage) => match outcome {
            StageOutcome::Completed => Progress::At(successor(stage, upload)),
            StageOutcome::Failed(cause) => Progress::Failed { stage, cause },
        },
        Progress::Failed { .. } => progress,
    }
}

/// The state after all of `outcomes`, one after the other.
pub open spec fn advanced_through(progress: Progress, outcomes: Seq<StageOutcome>, upload: bool) -> Progress
    decreases outcomes.len(),
{
    if outcomes.len() == 0 {
        progress
    } else {
        advanced(advanced_through(progress, outcomes.drop_last(), upload), outcomes.last(), upload)
    }
}

/// Whether the pipeline has come to its end, one way or the other.
pub open spec fn is_terminal(progress: Progress) -> bool {
    progress is Failed || progress == Progress::At(Stage::Done)
}

/// Names the stage that follows `stage`.
pub fn next_stage(stage: Stage, upload: bool) -> (next: Stage)
    ensures
        next == successor(stage, upload),
{
    match stage {
        Stage::Pending => Stage::Resolving,
        Stage::Resolving => Stage::Fingerprinting,
        Stage::Fingerprinting => Stage::Archiving,
        Stage::Archiving => Stage::ChecksummingArchive,
        Stage::ChecksummingArchive => if upload {
            Stage::Uploading
        } else {
            Stage::Done
        },
        Stage::Uploading => Stage::Done,
        Stage::Done => Stage::Done,
    }
}

/// Moves a pipeline by the outcome of the work of its stage.
pub fn advance(progress: Progress, outcome: StageOutcome, upload: bool) -> (next: Progress)
    ensures
        next == advanced(progress, outcome, upload),
{
    match progress {
        Progress::At(Stage::Done) => Progress::At(Stage::Done),
        Progress::At(stage) => match outcome {
            StageOutcome::Completed => Progress::At(next_stage(stage, upload)),
            StageOutcome::Failed(cause) => Progress::Failed { stage, cause },
        },
        Progress::Failed { stage, cause } => Progress::Failed { stage, cause },
    }
}

/// Tells whether a pipeline has come to its end.
pub fn finished(progress: &Progress) -> (b: bool)
    ensures
        b == is_terminal(*progress),
{
    match progress {
        Progress::At(Stage::Done) => true,
        Progress::At(_) => false,
        Progress::Failed { .. } => true,
    }
}

/// A pipeline at its end does not move any more.
pub proof fn lemma_terminal_stays(progress: Progress, outcome: StageOutcome, upload: bool)
    requires
        is_terminal(progress),
    ensures
        advanced(progress, outcome, upload) == progress,
{
}

/// A pending pipeline whose stages all complete is done after five
/// outcomes, or after six where an upload is due.
pub proof fn lemma_completes_when_nothing_fails(upload: bool)
    ensures
        advanced_through(
            Progress::At(Stage::Pending),
            Seq::new(
                if upload {
                    6
                } else {
                    5
                },
                |i: int| StageOutcome::Completed,
            ),
            upload,
        ) == Progress::At(Stage::Done),
{
    let n: nat = if upload { 6 } else { 5 };
    let all = Seq::new(n, |i: int| StageOutcome::Completed);
    let start = Progress::At(Stage::Pending);
    assert(all.take(0) =~= Seq::<StageOutcome>::empty());
    assert(advanced_through(start, all.take(0), upload) == start);
    assert(all.take(1).drop_last() =~= all.take(0));
    assert(advanced_through(start, all.take(1), upload) == Progress::At(Stage::Resolving));
    assert(all.take(2).drop_last() =~= all.take(1));
    assert(advanced_through(start, all.take(2), upload) == Progress::At(Stage::Fingerprinting));
    assert(all.take(3).drop_last() =~= all.take(2));
    assert(advanced_through(start, all.take(3), upload) == Progress::At(Stage::Archiving));
    assert(all.take(4).drop_last() =~= all.take(3));
    assert(advanced_through(start, all.take(4), upload) == Progress::At(Stage::ChecksummingArchive));
    assert(all.take(5).drop_last() =~= all.take(4));
    if upload {
        assert(advanced_through(start, all.take(5), upload) == Progress::At(Stage::Uploading));
        assert(all.take(6).drop_last() =~= all.take(5));
        assert(all.take(6) =~= all);
    } else {
        assert(all.take(5) =~= all);
    }
}

/// A failure is final and keeps the stage at which it came: whatever
/// follows, the pipeline stays failed at that stage for that cause.
pub proof fn lemma_failure_is_kept(
    stage: Stage,
    cause: PackError,
    later: Seq<StageOutcome>,
    upload: bool,
)
    ensures
        advanced_through(Progress::Failed { stage, cause }, later, upload) == (Progress::Failed {
            stage,
            cause,
        }),
    decreases later.len(),
{
    if later.len() > 0 {
        lemma_failure_is_kept(stage, cause, later.drop_last(), upload);
    }
}

/// The outcome of one target.
#[derive(Debug, Clone, PartialEq, Eq)]
pub enum PackagingResult {
    /// The artifact was produced; this is the path of its archive.
    Packaged { target: String, artifact: String },
    /// The pipeline failed at `stage`.
    Failed { target: String, stage: Stage, cause: PackError },
}

/// One failure in the final report.
#[derive(Debug, Clone, PartialEq, Eq)]
pub struct FailureReport {
    pub target: String,
    pub stage: Stage,
    pub message: String,
}

/// What a [`FailureReport`] stands for.
pub struct FailureView {
    pub target: Seq<char>,
    pub stage: Stage,
    pub message: Seq<char>,
}

impl View for FailureReport {
    type V = FailureView;

    open spec fn view(&self) -> FailureView {
        FailureView { target: self.target@, stage: self.stage, message: self.message@ }
    }
}

/// The final report: the artifacts produced and the failures, each in the
/// order of the targets.
#[derive(Debug, Clone, PartialEq, Eq)]
pub struct Summary {
    pub artifacts: Vec<String>,
    pub failures: Vec<FailureReport>,
}

/// The artifacts among `results`, in their order.
pub open spec fn artifacts_of(results: Seq<PackagingResult>) -> Seq<Seq<char>>
    decreases results.len(),
{
    if results.len() == 0 {
        Seq::empty()
    } else {
        match results.last() {
            PackagingResult::Packaged { artifact, .. } => artifacts_of(results.drop_last()).push(
                artifact@,
            ),
            PackagingResult::Failed { .. } => artifacts_of(results.drop_last()),
        }
    }
}

/// The failures among `results`, in their order.
pub open spec fn failures_of(results: Seq<PackagingResult>) -> Seq<FailureView>
    decreases results.len(),
{
    if results.len() == 0 {
        Seq::empty()
    } else {
        match results.last() {
            PackagingResult::Packaged { .. } => failures_of(results.drop_last()),
            PackagingResult::Failed { target, stage, cause } => failures_of(
                results.drop_last(),
            ).push(FailureView { target: target@, stage, message: cause.text(target@) }),
        }
    }
}

/// The views of the strings of a vector.
pub open spec fn paths_of(paths: Seq<String>) -> Seq<Seq<char>> {
    paths.map_values(|s: String| s@)
}

/// The failures that a vector of reports stands for.
pub open spec fn reports_of(reports: Seq<FailureReport>) -> Seq<FailureView> {
    reports.map_values(|r: FailureReport| r@)
}

/// Gathers the results of all targets into the final report. Every target
/// is counted once, as an artifact or as a failure.
pub fn summarize(results: &Vec<PackagingResult>) -> (summary: Summary)
    ensures
        paths_of(summary.artifacts@) == artifacts_of(results@),
        reports_of(summary.failures@) == failures_of(results@),
        summary.artifacts@.len() + summary.failures@.len() == results@.len(),
{
    let mut artifacts: Vec<String> = Vec::new();
    let mut failures: Vec<FailureReport> = Vec::new();
    let mut i: usize = 0;
    assert(results@.take(0) =~= Seq::<PackagingResult>::empty());
    while i < results.len()
        invariant
            i <= results.len(),
            paths_of(artifacts@) == artifacts_of(results@.take(i as int)),
            reports_of(failures@) == failures_of(results@.take(i as int)),
            artifacts@.len() + failures@.len() == i,
        decreases results.len() - i,
    {
        assert(results@.take(i as int + 1).drop_last() =~= results@.take(i as int));
        assert(results@.take(i as int + 1).last() == results@[i as int]);
        match &results[i] {
            PackagingResult::Packaged { artifact, .. } => {
                let ghost before = paths_of(artifacts@);
                artifacts.push(artifact.clone());
                assert(paths_of(artifacts@) =~= before.push(artifact@));
            },
            PackagingResult::Failed { target, stage, cause } => {
                let ghost before = reports_of(failures@);
                let report = FailureReport {
                    target: target.clone(),
                    stage: *stage,
                    message: cause.message(target.as_str()),
                };
                failures.push(report);
                assert(reports_of(failures@) =~= before.push(report@));
            },
        }
        i = i + 1;
    }
    assert(results@.take(i as int) =~= results@);
    Summary { artifacts, failures }
}

/// How a run ended as a whole.
#[derive(Debug, Clone, Copy, PartialEq, Eq, Structural)]
pub enum RunStatus {
    /// Every target was packaged.
    Success,
    /// Some targets were packaged and some failed.
    Partial,
    /// Every target failed.
    Failure,
}

/// The status of a run with that many artifacts and failures.
pub open spec fn status_of(artifacts: nat, failures: nat) -> RunStatus {
    if failures == 0 {
        RunStatus::Success
    } else if artifacts == 0 {
        RunStatus::Failure
    } else {
        RunStatus::Partial
    }
}

/// The exit code that stands for a status: 0 for success, 1 where some
/// targets failed, 2 where all did.
pub open spec fn exit_code_of(status: RunStatus) -> u8 {
    match status {
        RunStatus::Success => 0,
        RunStatus::Partial => 1,
        RunStatus::Failure => 2,
    }
}

impl Summary {
    /// Tells how the run ended as a whole.
    pub fn status(&self) -> (status: RunStatus)
        ensures
            status == status_of(self.artifacts@.len(), self.failures@.len()),
    {
        if self.failures.len() == 0 {
            RunStatus::Success
        } else if self.artifacts.len() == 0 {
            RunStatus::Failure
        } else {
            RunStatus::Partial
        }
    }
}

/// Gives the exit code of the process for a status.
pub fn exit_code(status: RunStatus) -> (code: u8)
    ensures
        code == exit_code_of(status),
{
    match status {
        RunStatus::Success => 0,
        RunStatus::Partial => 1,
        RunStatus::Failure => 2,
    }
}

/// The failure of one target takes nothing from the report of the others:
/// the artifacts reported are those of the run without that target.
pub proof fn lemma_failure_is_isolated(results: Seq<PackagingResult>, k: int)
    requires
        0 <= k < results.len(),
        results[k] is Failed,
    ensures
        artifacts_of(results) == artifacts_of(results.remove(k)),
    decreases results.len(),
{
    if k == results.len() - 1 {
        assert(results.remove(k) =~= results.drop_last());
    } else {
        assert(results.remove(k).drop_last() =~= results.drop_last().remove(k));
        assert(results.remove(k).last() == results.last());
        lemma_failure_is_isolated(results.drop_last(), k);
    }
}

/// Every target that was packaged has its artifact in the report, however
/// the other targets ended.
pub proof fn lemma_artifact_is_reported(results: Seq<PackagingResult>, i: int)
    requires
        0 <= i < results.len(),
        results[i] is Packaged,
    ensures
        artifacts_of(results).contains(results[i]->artifact@),
    decreases results.len(),
{
    let rest = artifacts_of(results.drop_last());
    if i == results.len() - 1 {
        assert(artifacts_of(results)[rest.len() as int] == results[i]->artifact@);
    } else {
        lemma_artifact_is_reported(results.drop_last(), i);
        let j = choose|j: int| 0 <= j < rest.len() && rest[j] == results[i]->artifact@;
        assert(artifacts_of(results)[j] == results[i]->artifact@);
    }
}

/// The artifacts and the failures of a report add up to the targets.
pub proof fn lemma_every_target_counted(results: Seq<PackagingResult>)
    ensures
        artifacts_of(results).len() + failures_of(results).len() == results.len(),
    decreases results.len(),
{
    if results.len() > 0 {
        lemma_every_target_counted(results.drop_last());
    }
}

} // verus!
