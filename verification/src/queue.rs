//! The job queue: one job per chunk of a plan, in chunk order.

use crate::plan::{
    bytes_in, count_in, last_chunk, lemma_bytes_grow, lemma_no_chunk_is_skipped,
    lemma_planned_chunks_fit,
    lemma_planned_is_well_ordered, lemma_unused_chunk_is_empty, planned, valid_plan, well_ordered,
    ChunkPlan, FileEntry, FileSpec, EXCLUDED,
};
use crate::text::{
    binary_size, binary_size_text, decimal, decimal_digits, push_decimal, push_decimal_digits,
};
use vstd::prelude::*;
use vstd::string::StringExecFns;

verus! {

/// A job as the contracts see it.
pub struct JobSpec {
    /// The chunk index, counted from 1.
    pub chunk: int,
    /// The bytes of the chunk's files.
    pub total_size: int,
    /// The number of the chunk's files.
    pub no_files: int,
    /// The position in the pack of the chunk's first file: the number of
    /// files before it, excluded ones included.
    pub file_offset: int,
}

/// A queue as the contracts see it.
pub struct QueueSpec {
    /// The number of files of the pack, excluded ones included.
    pub no_all_files: int,
    pub jobs: Seq<JobSpec>,
}

/// The position of the first of the first `n` entries that is in chunk
/// `k`, or `n` if none of them is.
pub open spec fn first_in(plan: Seq<FileEntry>, k: int, n: int) -> int
    decreases n,
{
    if n <= 0 {
        0
    } else if first_in(plan, k, n - 1) < n - 1 {
        first_in(plan, k, n - 1)
    } else if plan[n - 1].chunk == k {
        n - 1
    } else {
        n
    }
}

/// The bytes of the first `n` entries that are in some chunk.
pub open spec fn placed_bytes(plan: Seq<FileEntry>, n: int) -> int
    decreases n,
{
    if n <= 0 {
        0
    } else {
        placed_bytes(plan, n - 1) + if plan[n - 1].chunk != EXCLUDED {
            plan[n - 1].length
        } else {
            0
        }
    }
}

/// The job of chunk `k` of a plan.
pub open spec fn job_of(plan: Seq<FileEntry>, k: int) -> JobSpec {
    JobSpec {
        chunk: k,
        total_size: bytes_in(plan, k, plan.len() as int),
        no_files: count_in(plan, k, plan.len() as int),
        file_offset: first_in(plan, k, plan.len() as int),
    }
}

/// The jobs of a plan: one for each chunk index in use, in increasing order.
pub open spec fn jobs_of(plan: Seq<FileEntry>) -> Seq<JobSpec> {
    Seq::new(last_chunk(plan, plan.len() as int) as nat, |j: int| job_of(plan, j + 1))
}

/// The queue of a plan.
pub open spec fn queue_of(plan: Seq<FileEntry>) -> QueueSpec {
    QueueSpec { no_all_files: plan.len() as int, jobs: jobs_of(plan) }
}

/// The bytes of the first `n` jobs.
pub open spec fn total_bytes(jobs: Seq<JobSpec>, n: int) -> int
    decreases n,
{
    if n <= 0 {
        0
    } else {
        total_bytes(jobs, n - 1) + jobs[n - 1].total_size
    }
}

/// A job with a chunk index from 1, at least one file, and counts that
/// can be added up.
pub open spec fn valid_job(job: JobSpec) -> bool {
    &&& 1 <= job.chunk <= i32::MAX
    &&& 1 <= job.no_files
    &&& 0 <= job.total_size <= i64::MAX
    &&& 0 <= job.file_offset
    &&& job.file_offset + job.no_files <= i32::MAX
}

/// Where the files of the job at position `j` of a queue end at the
/// latest: where the next job starts, or with the pack's last file.
pub open spec fn limit_of(queue: QueueSpec, j: int) -> int {
    if j + 1 < queue.jobs.len() {
        queue.jobs[j + 1].file_offset
    } else {
        queue.no_all_files
    }
}

/// A queue whose jobs are numbered 1, 2, ... in order, each with its files
/// before those of the next, all within the pack's files.
pub open spec fn valid_queue(queue: QueueSpec) -> bool {
    &&& 0 <= queue.no_all_files <= i32::MAX
    &&& forall|j: int| 0 <= j < queue.jobs.len() ==> valid_job(#[trigger] queue.jobs[j])
    &&& forall|j: int| 0 <= j < queue.jobs.len() ==> (#[trigger] queue.jobs[j]).chunk == j + 1
    &&& forall|j: int|
        0 <= j < queue.jobs.len() ==> (#[trigger] queue.jobs[j]).file_offset
            + queue.jobs[j].no_files <= limit_of(queue, j)
}

/// One chunk of the pack: the unit that is downloaded, uploaded and deleted.
pub struct Job {
    chunk: i32,
    total_size: i64,
    no_files: i32,
    file_offset: i32,
}

impl View for Job {
    type V = JobSpec;

    closed spec fn view(&self) -> JobSpec {
        JobSpec {
            chunk: self.chunk as int,
            total_size: self.total_size as int,
            no_files: self.no_files as int,
            file_offset: self.file_offset as int,
        }
    }
}

impl Job {
    #[verifier::type_invariant]
    pub open spec fn is_valid(self) -> bool {
        valid_job(self@)
    }

    pub fn new(chunk: i32, total_size: i64, no_files: i32, file_offset: i32) -> (job: Self)
        requires
            valid_job(
                JobSpec {
                    chunk: chunk as int,
                    total_size: total_size as int,
                    no_files: no_files as int,
                    file_offset: file_offset as int,
                },
            ),
        ensures
            job@ == (JobSpec {
                chunk: chunk as int,
                total_size: total_size as int,
                no_files: no_files as int,
                file_offset: file_offset as int,
            }),
    {
        Self { chunk, total_size, no_files, file_offset }
    }

    pub fn chunk(&self) -> (chunk: i32)
        ensures
            chunk == self@.chunk,
            chunk >= 1,
    {
        proof {
            use_type_invariant(self);
        }
        self.chunk
    }

    pub fn total_size(&self) -> (total_size: i64)
        ensures
            total_size == self@.total_size,
            total_size >= 0,
    {
        proof {
            use_type_invariant(self);
        }
        self.total_size
    }

    pub fn no_files(&self) -> (no_files: i32)
        ensures
            no_files == self@.no_files,
            no_files >= 1,
    {
        proof {
            use_type_invariant(self);
        }
        self.no_files
    }

    /// The position in the pack of the chunk's first file: the number of
    /// files before it, excluded ones included.
    pub fn file_offset(&self) -> (file_offset: i32)
        ensures
            file_offset == self@.file_offset,
            file_offset >= 0,
            file_offset + self@.no_files <= i32::MAX,
    {
        proof {
            use_type_invariant(self);
        }
        self.file_offset
    }

    /// The mean size of the chunk's files, rounded down.
    pub fn average_size(&self) -> (average: i64)
        ensures
            average == self@.total_size / self@.no_files,
    {
        proof {
            use_type_invariant(self);
        }
        self.total_size / (self.no_files as i64)
    }
}

/// The jobs of a vector, each by its view.
pub open spec fn job_specs(jobs: Seq<Job>) -> Seq<JobSpec> {
    Seq::new(jobs.len(), |j: int| jobs[j]@)
}

/// The jobs of a pack in the order in which they are run.
pub struct Queue {
    no_all_files: i32,
    job: Vec<Job>,
}

impl View for Queue {
    type V = QueueSpec;

    closed spec fn view(&self) -> QueueSpec {
        QueueSpec { no_all_files: self.no_all_files as int, jobs: job_specs(self.job@) }
    }
}

impl Queue {
    #[verifier::type_invariant]
    pub open spec fn is_valid(self) -> bool {
        valid_queue(self@)
    }

    pub fn new(no_all_files: i32, job: Vec<Job>) -> (queue: Self)
        requires
            valid_queue(QueueSpec { no_all_files: no_all_files as int, jobs: job_specs(job@) }),
        ensures
            queue@ == (QueueSpec { no_all_files: no_all_files as int, jobs: job_specs(job@) }),
    {
        Self { no_all_files, job }
    }

    /// The number of files of the pack, excluded ones included.
    pub fn no_all_files(&self) -> (n: i32)
        ensures
            n == self@.no_all_files,
            n >= 0,
    {
        proof {
            use_type_invariant(self);
        }
        self.no_all_files
    }

    /// The number of jobs.
    pub fn len(&self) -> (n: usize)
        ensures
            n == self@.jobs.len(),
    {
        self.job.len()
    }

    /// The job at position `i`, if there is one.
    pub fn job(&self, i: usize) -> (job: Option<&Job>)
        ensures
            i < self@.jobs.len() ==> job is Some && job.unwrap()@ == self@.jobs[i as int],
            i >= self@.jobs.len() ==> job is None,
    {
        if i < self.job.len() {
            Some(&self.job[i])
        } else {
            None
        }
    }
}

/// The largest chunk index in use does not fall as more entries are read,
/// and no entry is in a chunk above it.
pub proof fn lemma_last_chunk_grows(plan: Seq<FileEntry>, i: int, m: int)
    requires
        0 <= i <= m <= plan.len(),
    ensures
        last_chunk(plan, i) <= last_chunk(plan, m),
        forall|j: int| 0 <= j < m ==> (#[trigger] plan[j]).chunk <= last_chunk(plan, m),
        0 <= last_chunk(plan, m),
    decreases m,
{
    if m > 0 {
        if i < m {
            lemma_last_chunk_grows(plan, i, m - 1);
        } else {
            lemma_last_chunk_grows(plan, m - 1, m - 1);
        }
    }
}

/// Once a later chunk is open, the files and bytes of a chunk do not change.
pub proof fn lemma_closed_chunk_is_final(plan: Seq<FileEntry>, k: int, i: int, m: int)
    requires
        well_ordered(plan),
        0 <= i <= m <= plan.len(),
        1 <= k < last_chunk(plan, i),
    ensures
        count_in(plan, k, m) == count_in(plan, k, i),
        bytes_in(plan, k, m) == bytes_in(plan, k, i),
    decreases m,
{
    if m > i {
        lemma_closed_chunk_is_final(plan, k, i, m - 1);
        lemma_last_chunk_grows(plan, i, m - 1);
        assert(plan[m - 1].chunk == EXCLUDED || plan[m - 1].chunk >= last_chunk(plan, m - 1));
    }
}

/// The first file of a chunk stands at a position, all files of the chunk
/// stand from there on, and none stands before.
pub proof fn lemma_first_file(plan: Seq<FileEntry>, k: int, n: int)
    requires
        0 <= n <= plan.len(),
    ensures
        0 <= first_in(plan, k, n) <= n,
        0 <= count_in(plan, k, n),
        first_in(plan, k, n) + count_in(plan, k, n) <= n,
        first_in(plan, k, n) < n ==> plan[first_in(plan, k, n)].chunk == k,
        first_in(plan, k, n) == n <==> count_in(plan, k, n) == 0,
        forall|i: int| 0 <= i < first_in(plan, k, n) ==> (#[trigger] plan[i]).chunk != k,
    decreases n,
{
    if n > 0 {
        lemma_first_file(plan, k, n - 1);
    }
}

/// Once a file of a chunk is found, the chunk's first file stays where it
/// is.
pub proof fn lemma_first_file_is_final(plan: Seq<FileEntry>, k: int, i: int, m: int)
    requires
        0 <= i <= m <= plan.len(),
        first_in(plan, k, i) < i,
    ensures
        first_in(plan, k, m) == first_in(plan, k, i),
    decreases m,
{
    if m > i {
        lemma_first_file_is_final(plan, k, i, m - 1);
    }
}

/// In a valid plan the files of a chunk stand before the first file of the
/// next chunk.
pub proof fn lemma_chunks_follow_each_other(plan: Seq<FileEntry>, k: int)
    requires
        valid_plan(plan),
        1 <= k < last_chunk(plan, plan.len() as int),
    ensures
        first_in(plan, k, plan.len() as int) + count_in(plan, k, plan.len() as int) <= first_in(
            plan,
            k + 1,
            plan.len() as int,
        ),
        first_in(plan, k + 1, plan.len() as int) < plan.len(),
{
    let n = plan.len() as int;
    lemma_no_chunk_is_skipped(plan, n, k + 1);
    let some = choose|i: int| 0 <= i < n && (#[trigger] plan[i]).chunk == k + 1;
    lemma_count_grows(plan, k + 1, some, some);
    lemma_count_grows(plan, k + 1, some + 1, n);
    lemma_first_file(plan, k + 1, n);
    let next = first_in(plan, k + 1, n);
    assert(plan[next].chunk == k + 1);
    lemma_last_chunk_grows(plan, next + 1, n);
    lemma_last_chunk_grows(plan, next, next);
    assert(last_chunk(plan, next + 1) >= k + 1);
    lemma_closed_chunk_is_final(plan, k, next + 1, n);
    assert(count_in(plan, k, next + 1) == count_in(plan, k, next));
    lemma_no_chunk_is_skipped(plan, n, k);
    let own = choose|i: int| 0 <= i < n && (#[trigger] plan[i]).chunk == k;
    lemma_count_grows(plan, k, own, own);
    lemma_count_grows(plan, k, own + 1, n);
    lemma_first_file(plan, k, next);
    lemma_first_file_is_final(plan, k, next, n);
}

/// The queue of a valid plan is a valid queue.
pub proof fn lemma_queue_of_valid_plan(plan: Seq<FileEntry>)
    requires
        valid_plan(plan),
    ensures
        valid_queue(queue_of(plan)),
{
    let n = plan.len() as int;
    let queue = queue_of(plan);
    let jobs = jobs_of(plan);
    lemma_last_chunk_grows(plan, n, n);
    assert forall|j: int| 0 <= j < jobs.len() implies valid_job(#[trigger] jobs[j]) && jobs[j].chunk
        == j + 1 && jobs[j].file_offset + jobs[j].no_files <= limit_of(queue, j) by {
        let k = j + 1;
        lemma_no_chunk_is_skipped(plan, n, k);
        let i = choose|i: int| 0 <= i < n && (#[trigger] plan[i]).chunk == k;
        lemma_count_grows(plan, k, i, i);
        lemma_count_grows(plan, k, i + 1, n);
        lemma_last_chunk_is_bounded(plan, n);
        lemma_bytes_grow(plan, k, n, n);
        lemma_first_file(plan, k, n);
        assert(bytes_in(plan, k, n) <= i64::MAX);
        if j + 1 < jobs.len() {
            lemma_chunks_follow_each_other(plan, k);
            assert(jobs[j + 1].file_offset == first_in(plan, k + 1, n));
        }
    }
}

/// A well-ordered plan uses no chunk index above its number of files.
pub proof fn lemma_last_chunk_is_bounded(plan: Seq<FileEntry>, n: int)
    requires
        well_ordered(plan),
        0 <= n <= plan.len(),
    ensures
        0 <= last_chunk(plan, n) <= n,
    decreases n,
{
    if n > 0 {
        lemma_last_chunk_is_bounded(plan, n - 1);
        assert(plan[n - 1].chunk == EXCLUDED || plan[n - 1].chunk <= last_chunk(plan, n - 1) + 1);
    }
}

/// The number of files of a chunk only grows.
pub proof fn lemma_count_grows(plan: Seq<FileEntry>, k: int, i: int, m: int)
    requires
        0 <= i <= m <= plan.len(),
    ensures
        0 <= count_in(plan, k, i) <= count_in(plan, k, m),
    decreases m,
{
    if m > i {
        lemma_count_grows(plan, k, i, m - 1);
    } else if i > 0 {
        lemma_count_grows(plan, k, i - 1, i - 1);
    }
}

/// The bytes of the first `n` entries that are in one of the chunks 1 to `k`.
pub open spec fn bytes_up_to(plan: Seq<FileEntry>, k: int, n: int) -> int
    decreases n,
{
    if n <= 0 {
        0
    } else {
        bytes_up_to(plan, k, n - 1) + if 1 <= plan[n - 1].chunk <= k {
            plan[n - 1].length
        } else {
            0
        }
    }
}

proof fn lemma_bytes_up_to_step(plan: Seq<FileEntry>, k: int, n: int)
    requires
        0 <= n <= plan.len(),
        1 <= k,
    ensures
        bytes_up_to(plan, k, n) == bytes_up_to(plan, k - 1, n) + bytes_in(plan, k, n),
        bytes_up_to(plan, 0, n) == 0,
    decreases n,
{
    if n > 0 {
        lemma_bytes_up_to_step(plan, k, n - 1);
    }
}

proof fn lemma_total_bytes_of_jobs(plan: Seq<FileEntry>, k: int)
    requires
        0 <= k <= jobs_of(plan).len(),
    ensures
        total_bytes(jobs_of(plan), k) == bytes_up_to(plan, k, plan.len() as int),
    decreases k,
{
    let n = plan.len() as int;
    if k > 0 {
        lemma_total_bytes_of_jobs(plan, k - 1);
        lemma_bytes_up_to_step(plan, k, n);
    } else {
        lemma_bytes_up_to_step(plan, 1, n);
    }
}

proof fn lemma_bytes_up_to_last(plan: Seq<FileEntry>, k: int, n: int)
    requires
        well_ordered(plan),
        0 <= n <= plan.len(),
        last_chunk(plan, n) <= k,
    ensures
        bytes_up_to(plan, k, n) == placed_bytes(plan, n),
    decreases n,
{
    if n > 0 {
        lemma_last_chunk_grows(plan, n - 1, n);
        lemma_bytes_up_to_last(plan, k, n - 1);
        assert(plan[n - 1].chunk == EXCLUDED || plan[n - 1].chunk >= 1);
    }
}

/// The bytes of all jobs of a plan are the bytes of the files that are not
/// excluded.
pub proof fn lemma_queue_keeps_bytes(plan: Seq<FileEntry>)
    requires
        well_ordered(plan),
    ensures
        total_bytes(jobs_of(plan), jobs_of(plan).len() as int) == placed_bytes(
            plan,
            plan.len() as int,
        ),
{
    let n = plan.len() as int;
    lemma_last_chunk_grows(plan, n, n);
    lemma_total_bytes_of_jobs(plan, jobs_of(plan).len() as int);
    lemma_bytes_up_to_last(plan, last_chunk(plan, n), n);
}

/// Every job of the plan of a pack holds a file, and no more bytes than the
/// budget.
pub proof fn lemma_jobs_fit_budget(files: Seq<FileSpec>, max: int, j: int)
    requires
        0 <= j < jobs_of(planned(files, max)).len(),
    ensures
        jobs_of(planned(files, max))[j].total_size <= max,
        jobs_of(planned(files, max))[j].no_files >= 1,
        jobs_of(planned(files, max))[j].chunk == j + 1,
{
    let plan = planned(files, max);
    let n = plan.len() as int;
    lemma_planned_is_well_ordered(files, max);
    lemma_last_chunk_grows(plan, n, n);
    lemma_planned_chunks_fit(files, max, j + 1);
    lemma_no_chunk_is_skipped(plan, n, j + 1);
    let i = choose|i: int| 0 <= i < n && (#[trigger] plan[i]).chunk == j + 1;
    lemma_count_grows(plan, j + 1, i, i);
    lemma_count_grows(plan, j + 1, i + 1, n);
}

/// How the chunk that is open, its files, its bytes and the position of its
/// first file change as the entry at position `i` is read.
proof fn lemma_reading_an_entry(plan: Seq<FileEntry>, i: int)
    requires
        valid_plan(plan),
        0 <= i < plan.len(),
    ensures
        ({
            let open = last_chunk(plan, i);
            let next = last_chunk(plan, i + 1);
            let entry = plan[i];
            &&& 0 <= open
            &&& 0 <= count_in(plan, open, i)
            &&& 0 <= bytes_in(plan, open, i)
            &&& 0 <= entry.length
            &&& 0 <= bytes_in(plan, next, i + 1) <= i64::MAX
            &&& open >= 1 ==> count_in(plan, open, i) >= 1 && 0 <= first_in(plan, open, i)
                && first_in(plan, open, i) + count_in(plan, open, i) <= i
            &&& entry.chunk == EXCLUDED ==> {
                &&& next == open
                &&& count_in(plan, next, i + 1) == count_in(plan, open, i)
                &&& bytes_in(plan, next, i + 1) == bytes_in(plan, open, i)
                &&& open >= 1 ==> first_in(plan, next, i + 1) == first_in(plan, open, i)
            }
            &&& entry.chunk != EXCLUDED && entry.chunk == open ==> {
                &&& next == open
                &&& open >= 1
                &&& count_in(plan, next, i + 1) == count_in(plan, open, i) + 1
                &&& bytes_in(plan, next, i + 1) == bytes_in(plan, open, i) + entry.length
                &&& first_in(plan, next, i + 1) == first_in(plan, open, i)
            }
            &&& entry.chunk != EXCLUDED && entry.chunk != open ==> {
                &&& next == open + 1
                &&& entry.chunk == next
                &&& count_in(plan, next, i + 1) == 1
                &&& bytes_in(plan, next, i + 1) == entry.length
                &&& first_in(plan, next, i + 1) == i
                &&& open >= 1 ==> job_of(plan, open) == (JobSpec {
                    chunk: open,
                    total_size: bytes_in(plan, open, i),
                    no_files: count_in(plan, open, i),
                    file_offset: first_in(plan, open, i),
                })
            }
        }),
{
    let n = plan.len() as int;
    let open = last_chunk(plan, i);
    let next = last_chunk(plan, i + 1);
    let entry = plan[i];
    lemma_last_chunk_grows(plan, i, i);
    lemma_count_grows(plan, open, i, i);
    lemma_bytes_grow(plan, open, i, i);
    lemma_bytes_grow(plan, next, i + 1, n);
    lemma_first_file(plan, open, i);
    if open >= 1 {
        lemma_no_chunk_is_skipped(plan, i, open);
        let some = choose|j: int| 0 <= j < i && (#[trigger] plan[j]).chunk == open;
        lemma_count_grows(plan, open, some, some);
        lemma_count_grows(plan, open, some + 1, i);
        lemma_first_file_is_final(plan, open, i, i + 1);
        lemma_first_file_is_final(plan, open, i, n);
    }
    if entry.chunk != EXCLUDED && entry.chunk != open {
        lemma_unused_chunk_is_empty(plan, next, i);
        lemma_first_file(plan, next, i);
        if open >= 1 {
            lemma_closed_chunk_is_final(plan, open, i + 1, n);
        }
    }
    lemma_chunk_zero_is_empty(plan, i + 1);
    lemma_chunk_zero_is_empty(plan, i);
}

/// No entry of a well-ordered plan is in a chunk 0.
proof fn lemma_chunk_zero_is_empty(plan: Seq<FileEntry>, n: int)
    requires
        well_ordered(plan),
        0 <= n <= plan.len(),
    ensures
        count_in(plan, 0, n) == 0,
        bytes_in(plan, 0, n) == 0,
    decreases n,
{
    if n > 0 {
        lemma_chunk_zero_is_empty(plan, n - 1);
        assert(plan[n - 1].chunk == EXCLUDED || plan[n - 1].chunk >= 1);
    }
}

/// Builds the queue of a plan: one job for each chunk, in chunk order, with
/// the chunk's files and bytes and the position of its first file.
/// Excluded files are in no job; they count as files of the pack.
pub fn build_queue(plan: &ChunkPlan) -> (queue: Queue)
    ensures
        queue@ == queue_of(plan@),
{
    proof {
        use_type_invariant(plan);
    }
    let ghost entries = plan@;
    let n = plan.len();
    let mut jobs: Vec<Job> = Vec::new();
    let mut current_chunk: i32 = 0;
    let mut total_size: i64 = 0;
    let mut files: i32 = 0;
    let mut offset: i32 = 0;
    let mut index: usize = 0;
    while index < n
        invariant
            entries == plan@,
            valid_plan(entries),
            n == entries.len(),
            0 <= index <= n,
            current_chunk == last_chunk(entries, index as int),
            files == count_in(entries, current_chunk as int, index as int),
            total_size == bytes_in(entries, current_chunk as int, index as int),
            current_chunk >= 1 ==> offset == first_in(entries, current_chunk as int, index as int),
            0 <= current_chunk <= index,
            0 <= files,
            0 <= offset,
            offset + files <= index,
            current_chunk == 0 ==> jobs.len() == 0 && offset == 0,
            current_chunk >= 1 ==> files >= 1 && jobs.len() == current_chunk - 1,
            forall|j: int| 0 <= j < jobs.len() ==> (#[trigger] jobs[j])@ == job_of(entries, j + 1),
        decreases n - index,
    {
        let entry = plan.get(index).unwrap();
        proof {
            lemma_reading_an_entry(entries, index as int);
        }
        if !entry.is_excluded() {
            if entry.chunk() != current_chunk {
                if current_chunk >= 1 {
                    jobs.push(Job::new(current_chunk, total_size, files, offset));
                }
                current_chunk = current_chunk + 1;
                total_size = 0;
                files = 0;
                offset = index as i32;
            }
            files = files + 1;
            total_size = total_size + entry.length();
        }
        index = index + 1;
    }
    if current_chunk >= 1 {
        proof {
            lemma_bytes_grow(entries, current_chunk as int, n as int, n as int);
        }
        jobs.push(Job::new(current_chunk, total_size, files, offset));
    }
    proof {
        assert(job_specs(jobs@) =~= jobs_of(entries));
        lemma_queue_of_valid_plan(entries);
    }
    Queue::new(n as i32, jobs)
}

/// What is said of a chunk before it is worked on, given its total size
/// and its mean size as texts.
pub open spec fn described(job: JobSpec, total: Seq<char>, average: Seq<char>) -> Seq<char> {
    "Chunk "@ + decimal(job.chunk) + " has "@ + decimal(job.no_files)
        + " files with total size of "@ + total + ". Average size per file is "@ + average + "."@
}

/// What is said of a chunk before it is worked on: its index, the number
/// of its files, and their total and mean size in binary units.
pub open spec fn info_text(job: JobSpec) -> Seq<char> {
    described(
        job,
        binary_size_text(job.total_size as i64),
        binary_size_text((job.total_size / job.no_files) as i64),
    )
}

/// A text followed by a chunk's index and the number of chunks, as in
/// `Uploading chunk 2/5`.
pub open spec fn label_text(prefix: Seq<char>, chunk: int, no_jobs: int) -> Seq<char> {
    prefix + decimal(chunk) + "/"@ + decimal_digits(no_jobs as nat)
}

impl Job {
    /// The chunk's index, the number of its files, their total size and
    /// their mean size, in a sentence.
    pub fn info(&self) -> (text: String)
        ensures
            text@ == info_text(self@),
    {
        proof {
            use_type_invariant(self);
        }
        let total = binary_size(self.total_size).unwrap();
        let average = binary_size(self.average_size()).unwrap();
        self.describe(total.as_str(), average.as_str())
    }

    /// The chunk's index and the number of its files in a sentence, with
    /// the texts `total` and `average` for their total and mean size.
    pub fn describe(&self, total: &str, average: &str) -> (text: String)
        ensures
            text@ == described(self@, total@, average@),
    {
        let mut text = String::from_str("Chunk ");
        push_decimal(&mut text, self.chunk as i64);
        text.append(" has ");
        push_decimal(&mut text, self.no_files as i64);
        text.append(" files with total size of ");
        text.append(total);
        text.append(". Average size per file is ");
        text.append(average);
        text.append(".");
        assert(text@ =~= described(self@, total@, average@));
        text
    }

    /// `prefix`, then the chunk's index, a slash and the number of chunks.
    pub fn label(&self, prefix: &str, no_jobs: usize) -> (text: String)
        ensures
            text@ == label_text(prefix@, self@.chunk, no_jobs as int),
    {
        let mut text = String::from_str(prefix);
        push_decimal(&mut text, self.chunk as i64);
        text.append("/");
        push_decimal_digits(&mut text, no_jobs as u64);
        assert(text@ =~= label_text(prefix@, self@.chunk, no_jobs as int));
        text
    }
}

} // verus!
