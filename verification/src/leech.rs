//! The pipeline: which step comes next, chunk by chunk.
//!
//! The pipeline does no work itself. It hands out one action at a time and
//! takes the outcome of that action in; whoever drives it talks to the
//! download agent and runs the upload tool.

use crate::error::Error;
use crate::plan::{has_outside, outside_text, plan_outcome, valid_plan, ChunkPlan, FileEntry};
use crate::queue::{build_queue, queue_of, Job, Queue, QueueSpec};
use crate::torrent_parser::TorrentPack;
use crate::RplChunk;
use vstd::prelude::*;

verus! {

/// Whether and how the pack is seeded once all chunks are uploaded.
pub struct SeedSettings {
    seed_enable: bool,
    seed_path: String,
    seed_wait: u32,
}

/// Seed settings as the contracts see them.
pub struct SeedSpec {
    pub seed_enable: bool,
    /// The path under which the remote storage is mounted.
    pub seed_path: Seq<char>,
    /// The seconds to wait for the mount to show the uploaded files.
    pub seed_wait: int,
}

impl View for SeedSettings {
    type V = SeedSpec;

    closed spec fn view(&self) -> SeedSpec {
        SeedSpec {
            seed_enable: self.seed_enable,
            seed_path: self.seed_path@,
            seed_wait: self.seed_wait as int,
        }
    }
}

impl Default for SeedSettings {
    /// No seeding.
    fn default() -> (settings: Self)
        ensures
            settings@ == (SeedSpec { seed_enable: false, seed_path: Seq::empty(), seed_wait: 0 }),
    {
        Self { seed_enable: false, seed_path: String::new(), seed_wait: 0 }
    }
}

impl SeedSettings {
    pub fn new(seed_enable: bool, seed_path: String, seed_wait: u32) -> (settings: Self)
        ensures
            settings@ == (SeedSpec {
                seed_enable,
                seed_path: seed_path@,
                seed_wait: seed_wait as int,
            }),
    {
        Self { seed_enable, seed_path, seed_wait }
    }

    pub fn seed_enable(&self) -> (enable: &bool)
        ensures
            *enable == self@.seed_enable,
    {
        &self.seed_enable
    }

    pub fn seed_path(&self) -> (path: &String)
        ensures
            path@ == self@.seed_path,
    {
        &self.seed_path
    }

    pub fn seed_wait(&self) -> (wait: &u32)
        ensures
            *wait == self@.seed_wait,
    {
        &self.seed_wait
    }
}

/// The action whose outcome the pipeline waits for.
#[derive(Debug, Clone, Copy, PartialEq, Eq, Structural)]
pub enum Stage {
    /// Nothing was handed out yet.
    Idle,
    Skipping,
    Submitting,
    Limiting,
    Prioritizing,
    Downloading,
    Uploading,
    Deleting,
    Settling,
    Reseeding,
    SeedLimiting,
    Resuming,
    /// The run is over: finished or aborted.
    Finished,
}

/// What to do next.
#[derive(Debug, PartialEq, Eq)]
pub enum Action {
    /// Note that the chunk is skipped; nothing else is done for it.
    Skip { chunk: i32 },
    /// Submit the pack to the download agent as a new, paused job.
    Submit { chunk: i32 },
    /// Lift the job's share-ratio and seeding-time limits.
    SetShareLimit,
    /// Tell the agent not to download the files at these positions.
    Deprioritize { files: String },
    /// Drive the job at this position of the queue until it is downloaded.
    Download { index: usize },
    /// Upload what was downloaded for the job at this position.
    Upload { index: usize },
    /// Delete the job from the agent, and its files from the disk.
    Delete,
    /// Wait for the mount to show what was uploaded.
    Settle { seconds: u32 },
    /// Submit the whole pack again, without a hash check, at the mount path.
    SubmitSeed,
    /// Resume the job, so that it seeds.
    Resume,
    /// Nothing is left to do: the run is over.
    Finished,
    /// The run has failed. `completed` chunks were skipped or done before;
    /// a later run can skip that many.
    Abort { error: Error, completed: usize },
}

/// An action as the contracts see it.
pub enum ActionSpec {
    Skip { chunk: int },
    Submit { chunk: int },
    SetShareLimit,
    Deprioritize { files: Seq<char> },
    Download { index: int },
    Upload { index: int },
    Delete,
    Settle { seconds: int },
    SubmitSeed,
    Resume,
    Finished,
    Abort { error: Error, completed: int },
}

impl View for Action {
    type V = ActionSpec;

    open spec fn view(&self) -> ActionSpec {
        match *self {
            Action::Skip { chunk } => ActionSpec::Skip { chunk: chunk as int },
            Action::Submit { chunk } => ActionSpec::Submit { chunk: chunk as int },
            Action::SetShareLimit => ActionSpec::SetShareLimit,
            Action::Deprioritize { files } => ActionSpec::Deprioritize { files: files@ },
            Action::Download { index } => ActionSpec::Download { index: index as int },
            Action::Upload { index } => ActionSpec::Upload { index: index as int },
            Action::Delete => ActionSpec::Delete,
            Action::Settle { seconds } => ActionSpec::Settle { seconds: seconds as int },
            Action::SubmitSeed => ActionSpec::SubmitSeed,
            Action::Resume => ActionSpec::Resume,
            Action::Finished => ActionSpec::Finished,
            Action::Abort { error, completed } => ActionSpec::Abort {
                error,
                completed: completed as int,
            },
        }
    }
}

/// The pipeline as the contracts see it.
pub struct PipelineSpec {
    /// The plan of the pack.
    pub plan: Seq<FileEntry>,
    /// The queue of that plan.
    pub queue: QueueSpec,
    pub seed_enable: bool,
    pub seed_wait: int,
    /// The position in the queue of the chunk that is worked on; the number
    /// of chunks that were skipped or done.
    pub position: int,
    /// The position in the pack of that chunk's first file: the number of
    /// files before it, excluded ones included. Once all chunks are done,
    /// the number of all files.
    pub offset: int,
    /// The chunks that are still to be skipped.
    pub skip_left: int,
    pub stage: Stage,
}

/// The file offset at position `position` of a queue: that of the job
/// there, or the number of all files behind the last job.
pub open spec fn offset_at(queue: QueueSpec, position: int) -> int {
    if 0 <= position < queue.jobs.len() {
        queue.jobs[position].file_offset
    } else {
        queue.no_all_files
    }
}

/// The pipeline of a plan before its first step.
pub open spec fn initial_pipeline(
    plan: Seq<FileEntry>,
    skip: int,
    seed_enable: bool,
    seed_wait: int,
) -> PipelineSpec {
    PipelineSpec {
        plan,
        queue: queue_of(plan),
        seed_enable,
        seed_wait,
        position: 0,
        offset: offset_at(queue_of(plan), 0),
        skip_left: skip,
        stage: Stage::Idle,
    }
}

/// Whether the stage belongs to the work on one chunk.
pub open spec fn in_chunk(stage: Stage) -> bool {
    stage == Stage::Skipping || stage == Stage::Submitting || stage == Stage::Limiting || stage
        == Stage::Prioritizing || stage == Stage::Downloading || stage == Stage::Uploading || stage
        == Stage::Deleting
}

/// What holds of a pipeline at every step: the plan is valid and the queue
/// is its queue, the offset is that of the chunk at the position, and
/// while a chunk is worked on the position is that of a job.
pub open spec fn valid_pipeline(s: PipelineSpec) -> bool {
    &&& valid_plan(s.plan)
    &&& s.queue == queue_of(s.plan)
    &&& 0 <= s.position <= s.queue.jobs.len()
    &&& s.offset == offset_at(s.queue, s.position)
    &&& 0 <= s.skip_left
    &&& in_chunk(s.stage) ==> s.position < s.queue.jobs.len()
    &&& s.stage == Stage::Skipping ==> s.skip_left > 0
    &&& s.stage == Stage::Idle ==> s.position == 0
}

/// Turns to the chunk at the position: skips it, or submits it; after the
/// last chunk, turns to seeding or finishes.
pub open spec fn begin_chunk(s: PipelineSpec) -> (PipelineSpec, ActionSpec) {
    if s.position < s.queue.jobs.len() {
        let chunk = s.queue.jobs[s.position].chunk;
        if s.skip_left > 0 {
            (PipelineSpec { stage: Stage::Skipping, ..s }, ActionSpec::Skip { chunk })
        } else {
            (PipelineSpec { stage: Stage::Submitting, ..s }, ActionSpec::Submit { chunk })
        }
    } else if s.seed_enable {
        (PipelineSpec { stage: Stage::Settling, ..s }, ActionSpec::Settle { seconds: s.seed_wait })
    } else {
        (PipelineSpec { stage: Stage::Finished, ..s }, ActionSpec::Finished)
    }
}

/// Moves the position past the chunk, and the offset to the first file of
/// the next one.
pub open spec fn past_chunk(s: PipelineSpec) -> PipelineSpec {
    PipelineSpec {
        position: s.position + 1,
        offset: offset_at(s.queue, s.position + 1),
        ..s
    }
}

/// The step of the pipeline: its next state and the next action, from its
/// state and the outcome of the action that was handed out last. The first
/// step takes `Ok(())`.
pub open spec fn pipeline_step(s: PipelineSpec, outcome: Result<(), Error>) -> (
    PipelineSpec,
    ActionSpec,
) {
    if s.stage == Stage::Finished {
        (s, ActionSpec::Finished)
    } else if outcome is Err {
        (
            PipelineSpec { stage: Stage::Finished, ..s },
            ActionSpec::Abort { error: outcome->Err_0, completed: s.position },
        )
    } else {
        match s.stage {
            Stage::Idle => begin_chunk(s),
            Stage::Skipping => begin_chunk(
                PipelineSpec { skip_left: s.skip_left - 1, ..past_chunk(s) },
            ),
            Stage::Submitting => (
                PipelineSpec { stage: Stage::Limiting, ..s },
                ActionSpec::SetShareLimit,
            ),
            Stage::Limiting => if has_outside(
                s.plan,
                s.queue.jobs[s.position].chunk,
                s.plan.len() as int,
            ) {
                (
                    PipelineSpec { stage: Stage::Prioritizing, ..s },
                    ActionSpec::Deprioritize {
                        files: outside_text(
                            s.plan,
                            s.queue.jobs[s.position].chunk,
                            s.plan.len() as int,
                        ),
                    },
                )
            } else {
                (
                    PipelineSpec { stage: Stage::Downloading, ..s },
                    ActionSpec::Download { index: s.position },
                )
            },
            Stage::Prioritizing => (
                PipelineSpec { stage: Stage::Downloading, ..s },
                ActionSpec::Download { index: s.position },
            ),
            Stage::Downloading => (
                PipelineSpec { stage: Stage::Uploading, ..s },
                ActionSpec::Upload { index: s.position },
            ),
            Stage::Uploading => (PipelineSpec { stage: Stage::Deleting, ..s }, ActionSpec::Delete),
            Stage::Deleting => begin_chunk(past_chunk(s)),
            Stage::Settling => (
                PipelineSpec { stage: Stage::Reseeding, ..s },
                ActionSpec::SubmitSeed,
            ),
            Stage::Reseeding => (
                PipelineSpec { stage: Stage::SeedLimiting, ..s },
                ActionSpec::SetShareLimit,
            ),
            Stage::SeedLimiting => (
                PipelineSpec { stage: Stage::Resuming, ..s },
                ActionSpec::Resume,
            ),
            Stage::Resuming => (PipelineSpec { stage: Stage::Finished, ..s }, ActionSpec::Finished),
            Stage::Finished => (s, ActionSpec::Finished),
        }
    }
}

/// Where a run stands.
#[derive(Debug, Clone, Copy, PartialEq, Eq, Structural)]
pub struct Cursor {
    position: usize,
    offset: i32,
    skip_left: u32,
    stage: Stage,
}

/// The pipeline of one run.
pub struct Pipeline {
    plan: ChunkPlan,
    queue: Queue,
    seed_enable: bool,
    seed_wait: u32,
    cursor: Cursor,
}

impl Pipeline {
    closed spec fn at(&self, cursor: Cursor) -> PipelineSpec {
        PipelineSpec {
            plan: self.plan@,
            queue: self.queue@,
            seed_enable: self.seed_enable,
            seed_wait: self.seed_wait as int,
            position: cursor.position as int,
            offset: cursor.offset as int,
            skip_left: cursor.skip_left as int,
            stage: cursor.stage,
        }
    }
}

impl View for Pipeline {
    type V = PipelineSpec;

    closed spec fn view(&self) -> PipelineSpec {
        self.at(self.cursor)
    }
}

impl Pipeline {
    #[verifier::type_invariant]
    pub open spec fn is_valid(self) -> bool {
        valid_pipeline(self@)
    }

    /// The pipeline for a plan, with the first `skip` chunks taken as done
    /// and seeding as `seed` says.
    pub fn new(plan: ChunkPlan, skip: u32, seed: &SeedSettings) -> (pipeline: Self)
        ensures
            pipeline@ == initial_pipeline(plan@, skip as int, seed@.seed_enable, seed@.seed_wait),
    {
        proof {
            use_type_invariant(&plan);
        }
        let queue = build_queue(&plan);
        let offset = match queue.job(0) {
            Some(job) => job.file_offset(),
            None => queue.no_all_files(),
        };
        Self {
            plan,
            queue,
            seed_enable: *seed.seed_enable(),
            seed_wait: *seed.seed_wait(),
            cursor: Cursor { position: 0, offset, skip_left: skip, stage: Stage::Idle },
        }
    }

    /// The plan of the pack.
    pub fn plan(&self) -> (plan: &ChunkPlan)
        ensures
            plan@ == self@.plan,
    {
        &self.plan
    }

    pub fn queue(&self) -> (queue: &Queue)
        ensures
            queue@ == self@.queue,
    {
        &self.queue
    }

    /// The number of chunks that were skipped or done.
    pub fn position(&self) -> (position: usize)
        ensures
            position == self@.position,
    {
        self.cursor.position
    }

    /// The position in the pack of the first file of the chunk at the
    /// position; the number of all files once all chunks are done.
    pub fn offset(&self) -> (offset: i32)
        ensures
            offset == self@.offset,
    {
        self.cursor.offset
    }

    pub fn stage(&self) -> (stage: Stage)
        ensures
            stage == self@.stage,
    {
        self.cursor.stage
    }

    /// The job that is worked on, if any.
    pub fn current_job(&self) -> (job: Option<&Job>)
        ensures
            0 <= self@.position < self@.queue.jobs.len() ==> job is Some && job.unwrap()@
                == self@.queue.jobs[self@.position],
            self@.position >= self@.queue.jobs.len() ==> job is None,
    {
        self.queue.job(self.cursor.position)
    }

    fn begin(&self, cursor: Cursor) -> (next: (Cursor, Action))
        ensures
            (self.at(next.0), next.1@) == begin_chunk(self.at(cursor)),
    {
        match self.queue.job(cursor.position) {
            Some(job) => {
                let chunk = job.chunk();
                if cursor.skip_left > 0 {
                    (Cursor { stage: Stage::Skipping, ..cursor }, Action::Skip { chunk })
                } else {
                    (Cursor { stage: Stage::Submitting, ..cursor }, Action::Submit { chunk })
                }
            },
            None => {
                if self.seed_enable {
                    (
                        Cursor { stage: Stage::Settling, ..cursor },
                        Action::Settle { seconds: self.seed_wait },
                    )
                } else {
                    (Cursor { stage: Stage::Finished, ..cursor }, Action::Finished)
                }
            },
        }
    }

    fn past(&self, cursor: Cursor) -> (next: Cursor)
        requires
            valid_pipeline(self.at(cursor)),
            cursor.position < self@.queue.jobs.len(),
        ensures
            self.at(next) == past_chunk(self.at(cursor)),
    {
        proof {
            use_type_invariant(self);
        }
        let jobs = self.queue.len();
        assert(cursor.position < jobs);
        let offset = match self.queue.job(cursor.position + 1) {
            Some(job) => job.file_offset(),
            None => self.queue.no_all_files(),
        };
        Cursor { position: cursor.position + 1, offset, ..cursor }
    }

    fn to(&self, stage: Stage) -> (next: Cursor)
        ensures
            self.at(next) == (PipelineSpec { stage, ..self@ }),
    {
        Cursor { stage, ..self.cursor }
    }

    /// Takes the outcome of the last action in and hands out the next one.
    /// The first call takes `Ok(())`.
    pub fn next(&mut self, outcome: Result<(), Error>) -> (action: Action)
        ensures
            (final(self)@, action@) == pipeline_step(old(self)@, outcome),
    {
        proof {
            use_type_invariant(&*self);
            lemma_step_keeps_validity(self@, outcome);
        }
        let cursor = self.cursor;
        if let Stage::Finished = cursor.stage {
            return Action::Finished;
        }
        if let Err(error) = outcome {
            self.cursor = self.to(Stage::Finished);
            return Action::Abort { error, completed: cursor.position };
        }
        let (next, action) = match cursor.stage {
            Stage::Idle => self.begin(cursor),
            Stage::Skipping => {
                let passed = self.past(cursor);
                self.begin(Cursor { skip_left: passed.skip_left - 1, ..passed })
            },
            Stage::Submitting => (self.to(Stage::Limiting), Action::SetShareLimit),
            Stage::Limiting => {
                let chunk = self.queue.job(cursor.position).unwrap().chunk();
                let others = self.plan.files_outside(chunk);
                match others {
                    Some(files) => (self.to(Stage::Prioritizing), Action::Deprioritize { files }),
                    None => (
                        self.to(Stage::Downloading),
                        Action::Download { index: cursor.position },
                    ),
                }
            },
            Stage::Prioritizing => (
                self.to(Stage::Downloading),
                Action::Download { index: cursor.position },
            ),
            Stage::Downloading => (
                self.to(Stage::Uploading),
                Action::Upload { index: cursor.position },
            ),
            Stage::Uploading => (self.to(Stage::Deleting), Action::Delete),
            Stage::Deleting => {
                let passed = self.past(cursor);
                self.begin(passed)
            },
            Stage::Settling => (self.to(Stage::Reseeding), Action::SubmitSeed),
            Stage::Reseeding => (self.to(Stage::SeedLimiting), Action::SetShareLimit),
            Stage::SeedLimiting => (self.to(Stage::Resuming), Action::Resume),
            Stage::Resuming => (self.to(Stage::Finished), Action::Finished),
            Stage::Finished => (cursor, Action::Finished),
        };
        self.cursor = next;
        action
    }
}

/// A step of a valid pipeline gives a valid pipeline.
pub proof fn lemma_step_keeps_validity(s: PipelineSpec, outcome: Result<(), Error>)
    requires
        valid_pipeline(s),
    ensures
        valid_pipeline(pipeline_step(s, outcome).0),
        pipeline_step(s, outcome).0.plan == s.plan,
{
}

/// The pipeline after the first `n` outcomes were taken in.
pub open spec fn pipeline_after(
    start: PipelineSpec,
    outcomes: Seq<Result<(), Error>>,
    n: int,
) -> PipelineSpec
    decreases n,
{
    if n <= 0 {
        start
    } else {
        pipeline_step(pipeline_after(start, outcomes, n - 1), outcomes[n - 1]).0
    }
}

/// A run that starts valid stays valid, on its queue.
pub proof fn lemma_run_stays_valid(start: PipelineSpec, outcomes: Seq<Result<(), Error>>, n: int)
    requires
        valid_pipeline(start),
    ensures
        valid_pipeline(pipeline_after(start, outcomes, n)),
        pipeline_after(start, outcomes, n).plan == start.plan,
        pipeline_after(start, outcomes, n).seed_enable == start.seed_enable,
        pipeline_after(start, outcomes, n).seed_wait == start.seed_wait,
    decreases n,
{
    if n > 0 {
        lemma_run_stays_valid(start, outcomes, n - 1);
        lemma_step_keeps_validity(pipeline_after(start, outcomes, n - 1), outcomes[n - 1]);
    }
}

/// Skipping changes no offset: two runs on one plan, whatever their skip
/// counts and whatever happened in them, have the same file offset
/// wherever they stand at the same chunk. A chunk that was skipped counts
/// as one that was done.
pub proof fn lemma_skipping_keeps_offsets(
    plan: Seq<FileEntry>,
    seed_enable: bool,
    seed_wait: int,
    skip_a: int,
    outcomes_a: Seq<Result<(), Error>>,
    n_a: int,
    skip_b: int,
    outcomes_b: Seq<Result<(), Error>>,
    n_b: int,
)
    requires
        valid_plan(plan),
        0 <= skip_a,
        0 <= skip_b,
    ensures
        ({
            let a = pipeline_after(
                initial_pipeline(plan, skip_a, seed_enable, seed_wait),
                outcomes_a,
                n_a,
            );
            let b = pipeline_after(
                initial_pipeline(plan, skip_b, seed_enable, seed_wait),
                outcomes_b,
                n_b,
            );
            &&& a.position == b.position ==> a.offset == b.offset
            &&& a.position == b.position && a.stage == b.stage && a.skip_left == b.skip_left ==> a
                == b
        }),
{
    lemma_run_stays_valid(initial_pipeline(plan, skip_a, seed_enable, seed_wait), outcomes_a, n_a);
    lemma_run_stays_valid(initial_pipeline(plan, skip_b, seed_enable, seed_wait), outcomes_b, n_b);
}

/// The steps of a chunk come in one order. A chunk is uploaded only once
/// its download has succeeded, deleted only once its upload has succeeded,
/// and the next chunk is begun only once this one is deleted or skipped.
/// A failure ends the run, and a run that has ended stays so.
pub proof fn lemma_steps_are_ordered(s: PipelineSpec, outcome: Result<(), Error>)
    ensures
        ({
            let (next, action) = pipeline_step(s, outcome);
            &&& action is Upload ==> s.stage == Stage::Downloading && outcome is Ok
            &&& action is Delete ==> s.stage == Stage::Uploading && outcome is Ok
            &&& action is Download ==> outcome is Ok && (s.stage == Stage::Limiting || s.stage
                == Stage::Prioritizing)
            &&& action is Submit || action is Skip ==> outcome is Ok && (s.stage == Stage::Idle
                || s.stage == Stage::Skipping || s.stage == Stage::Deleting)
            &&& next.position != s.position ==> outcome is Ok && next.position == s.position + 1
                && (s.stage == Stage::Skipping || s.stage == Stage::Deleting)
            &&& outcome is Err && s.stage != Stage::Finished ==> action is Abort && next.stage
                == Stage::Finished
            &&& s.stage == Stage::Finished ==> next == s && action is Finished
        }),
{
}

/// Starts a run: plans the pack under its budget and policy and sets up
/// the pipeline of that plan. A pack that cannot be planned ends the run
/// here, before anything is asked of the download agent.
pub fn start(pack: &TorrentPack, skip: u32, seed: &SeedSettings) -> (run: Result<Pipeline, Error>)
    ensures
        match plan_outcome(pack@.pack.entries(), pack@.max_size_allow, pack@.ignore_warning) {
            Ok(plan) => run is Ok && run->Ok_0@ == initial_pipeline(
                plan,
                skip as int,
                seed@.seed_enable,
                seed@.seed_wait,
            ),
            Err(e) => run is Err && run->Err_0 == e,
        },
{
    match pack.chunks() {
        Ok(plan) => Ok(Pipeline::new(plan, skip, seed)),
        Err(e) => Err(e),
    }
}

} // verus!
