//! The download of one chunk: a state machine that takes what the agent
//! reports for the job, poll by poll, and says what to do next.

use crate::error::Error;
use crate::qbittorrent::{Handling, QbitTorrentInfo, State};
use crate::queue::{label_text, Job};
use vstd::prelude::*;

verus! {

/// The milliseconds between two polls.
pub const POLL_INTERVAL_MS: u64 = 1000;

/// The milliseconds that a recovery waits.
pub const RECOVERY_WAIT_MS: u64 = 5000;

/// The number of recoveries that error and missing-files states get for
/// one chunk.
pub const MAX_RETRIES: u8 = 3;

/// The position of the progress display: the bytes of the job that are
/// done, no less than 0 and no more than its size.
pub open spec fn progress_position(size: int, left: int) -> int {
    if size <= 0 || left >= size {
        0
    } else if left <= 0 {
        size
    } else {
        size - left
    }
}

/// The position of the progress display for a job of `size` bytes of which
/// `left` are still to come.
pub fn download_position(size: i64, left: i64) -> (position: u64)
    ensures
        position == progress_position(size as int, left as int),
        size >= 0 ==> position <= size,
{
    if size <= 0 || left >= size {
        0
    } else if left <= 0 {
        size as u64
    } else {
        (size - left) as u64
    }
}

/// Which recheck the next observation is.
#[derive(Debug, Clone, Copy, PartialEq, Eq, Structural)]
pub enum Recheck {
    /// The next observation is an ordinary poll.
    No,
    /// The job was paused and has been resumed.
    Paused,
    /// The job was in no known state and has been resumed.
    Unknown,
}

/// The state of one chunk's download as the contracts see it.
pub struct MonitorSpec {
    /// The recoveries from error states so far.
    pub retries: int,
    pub recheck: Recheck,
}

/// What to show while a chunk downloads.
#[derive(Debug, Clone, Copy, PartialEq, Eq, Structural)]
pub enum Status {
    Moving,
    Allocating,
    Metadata,
    Downloading,
    Stalled,
    Queued,
    Forced,
    Checking,
}

/// What to show for a state that keeps the pipeline polling.
pub open spec fn status_of(state: State) -> Status {
    match state {
        State::Moving => Status::Moving,
        State::Allocating => Status::Allocating,
        State::MetaDL => Status::Metadata,
        State::StalledDL => Status::Stalled,
        State::QueuedDL => Status::Queued,
        State::ForceDL => Status::Forced,
        State::CheckingDL => Status::Checking,
        _ => Status::Downloading,
    }
}

/// What the pipeline does after an observation.
#[derive(Debug, PartialEq, Eq)]
pub enum Directive {
    /// Show the status and, if there is one, the position; wait
    /// `POLL_INTERVAL_MS`; poll again.
    KeepPolling { status: Status, position: Option<u64> },
    /// Recovery number `attempt` from an error state: wait
    /// `RECOVERY_WAIT_MS`, resume the job, poll again.
    Retry { attempt: u8 },
    /// The one recovery from a paused or unknown state: resume the job, wait
    /// `RECOVERY_WAIT_MS`, poll again. The next observation is the recheck.
    ResumeAndRecheck,
    /// The recheck passed: poll again at once.
    PollNow,
    /// The chunk is downloaded.
    Done,
    /// The chunk has failed for good.
    Fail(Error),
}

/// The step of the state machine: the monitor's next state and what to do,
/// from its state and the observation. `size` is the chunk's bytes.
pub open spec fn monitor_step(m: MonitorSpec, info: QbitTorrentInfo, size: int) -> (
    MonitorSpec,
    Directive,
) {
    let state = info.state();
    match m.recheck {
        Recheck::Paused => if state == State::PausedDL {
            (m, Directive::Fail(Error::QbitTorrentErrored))
        } else {
            (MonitorSpec { retries: m.retries, recheck: Recheck::No }, Directive::PollNow)
        },
        Recheck::Unknown => if state == State::Unknown {
            (m, Directive::Fail(Error::QbitTorrentErrored))
        } else {
            (MonitorSpec { retries: m.retries, recheck: Recheck::No }, Directive::PollNow)
        },
        Recheck::No => match state.handling() {
            Handling::Progress => (
                m,
                Directive::KeepPolling {
                    status: status_of(state),
                    position: Some(progress_position(size, info.amount_left() as int) as u64),
                },
            ),
            Handling::Busy => (
                m,
                Directive::KeepPolling { status: status_of(state), position: None },
            ),
            Handling::Stuck => (
                MonitorSpec {
                    retries: m.retries,
                    recheck: if state == State::PausedDL {
                        Recheck::Paused
                    } else {
                        Recheck::Unknown
                    },
                },
                Directive::ResumeAndRecheck,
            ),
            Handling::Faulty => if m.retries < MAX_RETRIES {
                (
                    MonitorSpec { retries: m.retries + 1, recheck: Recheck::No },
                    Directive::Retry { attempt: (m.retries + 1) as u8 },
                )
            } else {
                (m, Directive::Fail(Error::QbitTorrentErrored))
            },
            Handling::Complete => (m, Directive::Done),
            Handling::Unexpected => (m, Directive::Fail(Error::QbitTorrentUnimplementedState)),
        },
    }
}

/// The state machine that drives one chunk's download.
pub struct DownloadMonitor {
    retries: u8,
    recheck: Recheck,
}

impl View for DownloadMonitor {
    type V = MonitorSpec;

    closed spec fn view(&self) -> MonitorSpec {
        MonitorSpec { retries: self.retries as int, recheck: self.recheck }
    }
}

impl DownloadMonitor {
    #[verifier::type_invariant]
    pub open spec fn is_valid(self) -> bool {
        0 <= self@.retries <= MAX_RETRIES
    }

    /// The monitor of a chunk that was just submitted: no recovery made, no
    /// recheck due. The job is resumed before it is first polled.
    pub fn new() -> (monitor: Self)
        ensures
            monitor@ == (MonitorSpec { retries: 0, recheck: Recheck::No }),
    {
        Self { retries: 0, recheck: Recheck::No }
    }

    /// The recoveries from error states so far.
    pub fn retries(&self) -> (retries: u8)
        ensures
            retries == self@.retries,
            retries <= MAX_RETRIES,
    {
        proof {
            use_type_invariant(self);
        }
        self.retries
    }

    /// Takes one observation of the job of `job` in and says what to do.
    pub fn observe(&mut self, info: &QbitTorrentInfo, job: &Job) -> (directive: Directive)
        ensures
            (final(self)@, directive) == monitor_step(old(self)@, *info, job@.total_size),
    {
        proof {
            use_type_invariant(&*self);
        }
        let state = info.state();
        match self.recheck {
            Recheck::Paused => {
                if state == State::PausedDL {
                    Directive::Fail(Error::QbitTorrentErrored)
                } else {
                    self.recheck = Recheck::No;
                    Directive::PollNow
                }
            },
            Recheck::Unknown => {
                if state == State::Unknown {
                    Directive::Fail(Error::QbitTorrentErrored)
                } else {
                    self.recheck = Recheck::No;
                    Directive::PollNow
                }
            },
            Recheck::No => match state.classify() {
                Handling::Progress => Directive::KeepPolling {
                    status: status_for(state),
                    position: Some(download_position(job.total_size(), info.amount_left())),
                },
                Handling::Busy => Directive::KeepPolling {
                    status: status_for(state),
                    position: None,
                },
                Handling::Stuck => {
                    self.recheck = if state == State::PausedDL {
                        Recheck::Paused
                    } else {
                        Recheck::Unknown
                    };
                    Directive::ResumeAndRecheck
                },
                Handling::Faulty => {
                    if self.retries < MAX_RETRIES {
                        self.retries = self.retries + 1;
                        Directive::Retry { attempt: self.retries }
                    } else {
                        Directive::Fail(Error::QbitTorrentErrored)
                    }
                },
                Handling::Complete => Directive::Done,
                Handling::Unexpected => Directive::Fail(Error::QbitTorrentUnimplementedState),
            },
        }
    }
}

/// What to show for a state that keeps the pipeline polling.
pub fn status_for(state: State) -> (status: Status)
    ensures
        status == status_of(state),
{
    match state {
        State::Moving => Status::Moving,
        State::Allocating => Status::Allocating,
        State::MetaDL => Status::Metadata,
        State::StalledDL => Status::Stalled,
        State::QueuedDL => Status::Queued,
        State::ForceDL => Status::Forced,
        State::CheckingDL => Status::Checking,
        _ => Status::Downloading,
    }
}

impl Status {
    /// The words that a status is shown with, up to the chunk's index.
    pub open spec fn prefix(self) -> Seq<char> {
        match self {
            Status::Moving => "Moving files of chunk "@,
            Status::Allocating => "Allocating data of chunk "@,
            Status::Metadata => "Downloading metadata of chunk "@,
            Status::Downloading => "Downloading chunk "@,
            Status::Stalled => "[Stalled] Downloading chunk "@,
            Status::Queued => "[Queued] Downloading chunk "@,
            Status::Forced => "[Forced] Downloading chunk "@,
            Status::Checking => "[Checking] Downloading chunk "@,
        }
    }

    /// What is shown for this status while `job`, one of `no_jobs`,
    /// downloads.
    pub fn message(&self, job: &Job, no_jobs: usize) -> (text: String)
        ensures
            text@ == label_text(self.prefix(), job@.chunk, no_jobs as int),
    {
        let prefix = match self {
            Status::Moving => "Moving files of chunk ",
            Status::Allocating => "Allocating data of chunk ",
            Status::Metadata => "Downloading metadata of chunk ",
            Status::Downloading => "Downloading chunk ",
            Status::Stalled => "[Stalled] Downloading chunk ",
            Status::Queued => "[Queued] Downloading chunk ",
            Status::Forced => "[Forced] Downloading chunk ",
            Status::Checking => "[Checking] Downloading chunk ",
        };
        job.label(prefix, no_jobs)
    }
}

/// The monitor of a chunk that was just submitted.
pub open spec fn fresh_monitor() -> MonitorSpec {
    MonitorSpec { retries: 0, recheck: Recheck::No }
}

/// The monitor after the first `n` observations of a chunk.
pub open spec fn monitor_after(infos: Seq<QbitTorrentInfo>, size: int, n: int) -> MonitorSpec
    decreases n,
{
    if n <= 0 {
        fresh_monitor()
    } else {
        monitor_step(monitor_after(infos, size, n - 1), infos[n - 1], size).0
    }
}

/// What the monitor says to observation `i` of a chunk.
pub open spec fn directive_at(infos: Seq<QbitTorrentInfo>, size: int, i: int) -> Directive {
    monitor_step(monitor_after(infos, size, i), infos[i], size).1
}

/// The number of the first `n` observations that were answered by a retry.
pub open spec fn retries_among(infos: Seq<QbitTorrentInfo>, size: int, n: int) -> int
    decreases n,
{
    if n <= 0 {
        0
    } else {
        retries_among(infos, size, n - 1) + if directive_at(infos, size, n - 1) is Retry {
            1int
        } else {
            0
        }
    }
}

/// Whatever the agent reports, a chunk gets at most `MAX_RETRIES` retries,
/// and the monitor has counted each of them.
pub proof fn lemma_retries_are_bounded(infos: Seq<QbitTorrentInfo>, size: int, n: int)
    requires
        0 <= n <= infos.len(),
    ensures
        retries_among(infos, size, n) == monitor_after(infos, size, n).retries,
        0 <= retries_among(infos, size, n) <= MAX_RETRIES,
    decreases n,
{
    if n > 0 {
        lemma_retries_are_bounded(infos, size, n - 1);
    }
}

/// An agent that reports an error state every time is answered by
/// `MAX_RETRIES` retries, numbered from 1, and at the next observation by
/// the fatal error.
pub proof fn lemma_lasting_error_is_fatal(infos: Seq<QbitTorrentInfo>, size: int)
    requires
        infos.len() > MAX_RETRIES,
        forall|i: int| 0 <= i < infos.len() ==> (#[trigger] infos[i]).state().handling()
            == Handling::Faulty,
    ensures
        forall|i: int|
            0 <= i < MAX_RETRIES ==> #[trigger] directive_at(infos, size, i) == (Directive::Retry {
                attempt: (i + 1) as u8,
            }),
        directive_at(infos, size, MAX_RETRIES as int) == Directive::Fail(Error::QbitTorrentErrored),
{
    assert(monitor_after(infos, size, 0) == fresh_monitor());
    assert(infos[0].state().handling() == Handling::Faulty);
    assert(monitor_after(infos, size, 1) == (MonitorSpec { retries: 1, recheck: Recheck::No }));
    assert(infos[1].state().handling() == Handling::Faulty);
    assert(monitor_after(infos, size, 2) == (MonitorSpec { retries: 2, recheck: Recheck::No }));
    assert(infos[2].state().handling() == Handling::Faulty);
    assert(monitor_after(infos, size, 3) == (MonitorSpec { retries: 3, recheck: Recheck::No }));
    assert(infos[3].state().handling() == Handling::Faulty);
}

/// A job that is still paused, or still in no known state, at the recheck
/// fails the chunk: such a state gets exactly one recovery.
pub proof fn lemma_stuck_twice_is_fatal(
    m: MonitorSpec,
    first: QbitTorrentInfo,
    second: QbitTorrentInfo,
    size: int,
)
    requires
        m.recheck == Recheck::No,
        first.state().handling() == Handling::Stuck,
        second.state() == first.state(),
    ensures
        monitor_step(m, first, size).1 == Directive::ResumeAndRecheck,
        monitor_step(monitor_step(m, first, size).0, second, size).1 == Directive::Fail(
            Error::QbitTorrentErrored,
        ),
{
}

} // verus!
