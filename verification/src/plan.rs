//! The chunk plan: which file of a pack goes into which chunk.
//!
//! Files are taken in the pack's own order. A file larger than the budget is
//! excluded. Every other file joins the open chunk if its bytes still fit
//! there, and opens the next chunk if they do not. A file that fills the
//! chunk to the last byte still fits. The last file of the pack is placed
//! as every other file is.

use crate::error::Error;
use crate::text::{decimal, lemma_decimal_is_not_empty, push_decimal};
use vstd::prelude::*;
use vstd::string::StringExecFns;

verus! {

/// The chunk value of a file that is larger than the budget.
pub const EXCLUDED: i32 = -1;

/// One file of a pack.
pub struct PackFile {
    pub path: String,
    pub length: i64,
}

/// A file of a pack as the contracts see it.
pub struct FileSpec {
    pub path: Seq<char>,
    pub length: int,
}

impl View for PackFile {
    type V = FileSpec;

    open spec fn view(&self) -> FileSpec {
        FileSpec { path: self.path@, length: self.length as int }
    }
}

/// The files of a vector, each by its view.
pub open spec fn file_specs(files: Seq<PackFile>) -> Seq<FileSpec> {
    Seq::new(files.len(), |i: int| files[i]@)
}

/// A planned file as the contracts see it: `chunk` is `EXCLUDED` or a chunk
/// index, counted from 1.
pub struct FileEntry {
    pub path: Seq<char>,
    pub length: int,
    pub chunk: int,
}

/// A file of a pack with the chunk it was planned into.
#[derive(Debug)]
pub struct RplFile {
    filename: String,
    length: i64,
    chunk: i32,
}

impl View for RplFile {
    type V = FileEntry;

    closed spec fn view(&self) -> FileEntry {
        FileEntry { path: self.filename@, length: self.length as int, chunk: self.chunk as int }
    }
}

impl RplFile {
    pub fn new(filename: String, length: i64, chunk: i32) -> (file: Self)
        ensures
            file@ == (FileEntry { path: filename@, length: length as int, chunk: chunk as int }),
    {
        Self { filename, length, chunk }
    }

    pub fn filename(&self) -> (name: &String)
        ensures
            name@ == self@.path,
    {
        &self.filename
    }

    pub fn length(&self) -> (length: i64)
        ensures
            length == self@.length,
    {
        self.length
    }

    pub fn chunk(&self) -> (chunk: i32)
        ensures
            chunk == self@.chunk,
    {
        self.chunk
    }

    /// Whether the file is left out of every chunk.
    pub fn is_excluded(&self) -> (excluded: bool)
        ensures
            excluded == (self@.chunk == EXCLUDED),
    {
        self.chunk == EXCLUDED
    }
}

/// The entries of a vector, each by its view.
pub open spec fn file_entries(entries: Seq<RplFile>) -> Seq<FileEntry> {
    Seq::new(entries.len(), |i: int| entries[i]@)
}

/// Whether the entry at position `i` of a plan has the path `path`.
pub open spec fn holds_path_at(plan: Seq<FileEntry>, path: Seq<char>, i: int) -> bool {
    0 <= i < plan.len() && plan[i].path == path
}

/// The first position from `from` on at which a plan has the path `path`,
/// or the length of the plan if there is none.
pub open spec fn position_of(plan: Seq<FileEntry>, path: Seq<char>, from: int) -> int
    decreases plan.len() - from,
{
    if from < 0 || from >= plan.len() {
        plan.len() as int
    } else if plan[from].path == path {
        from
    } else {
        position_of(plan, path, from + 1)
    }
}

/// Whether one of the first `n` entries of a plan is not in chunk `k`.
pub open spec fn has_outside(plan: Seq<FileEntry>, k: int, n: int) -> bool {
    exists|i: int| 0 <= i < n && (#[trigger] plan[i]).chunk != k
}

/// The positions of the first `n` entries of a plan that are not in chunk
/// `k`, in increasing order and in decimal, joined by `" | "`.
pub open spec fn outside_text(plan: Seq<FileEntry>, k: int, n: int) -> Seq<char>
    decreases n,
{
    if n <= 0 {
        Seq::empty()
    } else {
        let before = outside_text(plan, k, n - 1);
        if plan[n - 1].chunk == k {
            before
        } else if before.len() == 0 {
            decimal(n - 1)
        } else {
            before + " | "@ + decimal(n - 1)
        }
    }
}

/// The text of the positions outside a chunk is empty exactly if there is
/// none.
pub proof fn lemma_outside_text_is_empty(plan: Seq<FileEntry>, k: int, n: int)
    requires
        0 <= n <= plan.len(),
    ensures
        outside_text(plan, k, n).len() == 0 <==> !has_outside(plan, k, n),
    decreases n,
{
    if n > 0 {
        lemma_outside_text_is_empty(plan, k, n - 1);
        lemma_decimal_is_not_empty(n - 1);
        if plan[n - 1].chunk != k {
            assert(0 <= n - 1 < n && plan[n - 1].chunk != k);
        } else if has_outside(plan, k, n) {
            let i = choose|i: int| 0 <= i < n && (#[trigger] plan[i]).chunk != k;
            assert(0 <= i < n - 1 && plan[i].chunk != k);
        }
        if has_outside(plan, k, n - 1) {
            let i = choose|i: int| 0 <= i < n - 1 && (#[trigger] plan[i]).chunk != k;
            assert(0 <= i < n && plan[i].chunk != k);
        }
    }
}

/// The chunk that is open after some files were placed, and the bytes in it.
pub struct Fill {
    pub chunk: int,
    pub sum: int,
}

/// The open chunk after the first `n` files were placed.
pub open spec fn fill_after(files: Seq<FileSpec>, max: int, n: int) -> Fill
    decreases n,
{
    if n <= 0 {
        Fill { chunk: 1, sum: 0 }
    } else {
        let prev = fill_after(files, max, n - 1);
        let len = files[n - 1].length;
        if len > max {
            prev
        } else if prev.sum + len <= max {
            Fill { chunk: prev.chunk, sum: prev.sum + len }
        } else {
            Fill { chunk: prev.chunk + 1, sum: len }
        }
    }
}

/// The chunk of file `i`: `EXCLUDED` if it is larger than the budget, else
/// the chunk that is open once the file is placed.
pub open spec fn assigned_chunk(files: Seq<FileSpec>, max: int, i: int) -> int {
    if files[i].length > max {
        EXCLUDED as int
    } else {
        fill_after(files, max, i + 1).chunk
    }
}

/// The plan of a pack: every file, in order, with its chunk.
pub open spec fn planned(files: Seq<FileSpec>, max: int) -> Seq<FileEntry> {
    Seq::new(
        files.len(),
        |i: int|
            FileEntry {
                path: files[i].path,
                length: files[i].length,
                chunk: assigned_chunk(files, max, i),
            },
    )
}

/// Whether some file of the pack is larger than the budget.
pub open spec fn has_oversize(files: Seq<FileSpec>, max: int) -> bool {
    exists|i: int| 0 <= i < files.len() && (#[trigger] files[i]).length > max
}

/// Whether one of the first `n` files is within the budget.
pub open spec fn any_placed(files: Seq<FileSpec>, max: int, n: int) -> bool {
    exists|j: int| 0 <= j < n && (#[trigger] files[j]).length <= max
}

/// The number of the first `n` entries that are in chunk `k`.
pub open spec fn count_in(plan: Seq<FileEntry>, k: int, n: int) -> int
    decreases n,
{
    if n <= 0 {
        0
    } else {
        count_in(plan, k, n - 1) + if plan[n - 1].chunk == k { 1int } else { 0 }
    }
}

/// The bytes of the first `n` entries that are in chunk `k`.
pub open spec fn bytes_in(plan: Seq<FileEntry>, k: int, n: int) -> int
    decreases n,
{
    if n <= 0 {
        0
    } else {
        bytes_in(plan, k, n - 1) + if plan[n - 1].chunk == k { plan[n - 1].length } else { 0 }
    }
}

/// The largest chunk index among the first `n` entries, 0 if none is placed.
pub open spec fn last_chunk(plan: Seq<FileEntry>, n: int) -> int
    decreases n,
{
    if n <= 0 {
        0
    } else {
        let before = last_chunk(plan, n - 1);
        if plan[n - 1].chunk > before { plan[n - 1].chunk } else { before }
    }
}

/// A plan in which the chunk indices start at 1, never step back and never
/// skip a value.
pub open spec fn well_ordered(plan: Seq<FileEntry>) -> bool {
    &&& forall|i: int|
        0 <= i < plan.len() ==> (#[trigger] plan[i]).chunk == EXCLUDED || plan[i].chunk >= 1
    &&& forall|i: int|
        0 <= i < plan.len() && (#[trigger] plan[i]).chunk != EXCLUDED ==> plan[i].chunk
            <= last_chunk(plan, i) + 1
    &&& forall|i: int|
        0 <= i < plan.len() && (#[trigger] plan[i]).chunk != EXCLUDED ==> plan[i].chunk
            >= last_chunk(plan, i)
}

/// A plan that a queue can be built from: well ordered, with lengths that
/// are not negative, and with counts and chunk sizes that the machine's
/// integers hold.
pub open spec fn valid_plan(plan: Seq<FileEntry>) -> bool {
    &&& well_ordered(plan)
    &&& plan.len() < i32::MAX
    &&& forall|i: int| 0 <= i < plan.len() ==> 0 <= (#[trigger] plan[i]).length <= i64::MAX
    &&& forall|k: int| 1 <= k ==> #[trigger] bytes_in(plan, k, plan.len() as int) <= i64::MAX
}

/// Files that can be planned: fewer than `i32::MAX`, none of negative length.
pub open spec fn valid_files(files: Seq<FileSpec>) -> bool {
    &&& files.len() < i32::MAX
    &&& forall|i: int| 0 <= i < files.len() ==> 0 <= (#[trigger] files[i]).length <= i64::MAX
}

/// What planning a pack gives: an error for an empty pack, an error for a
/// file over the budget unless such files may be skipped, else the plan.
pub open spec fn plan_outcome(files: Seq<FileSpec>, max: int, force: bool) -> Result<
    Seq<FileEntry>,
    Error,
> {
    if files.len() == 0 {
        Err(Error::NothingToLeech)
    } else if !force && has_oversize(files, max) {
        Err(Error::MaxSizeAllowedTooSmall)
    } else {
        Ok(planned(files, max))
    }
}

/// Whether a result of planning is the outcome `outcome`: the same error,
/// or a plan of those entries.
pub open spec fn plans_as(
    result: Result<ChunkPlan, Error>,
    outcome: Result<Seq<FileEntry>, Error>,
) -> bool {
    match outcome {
        Ok(plan) => result is Ok && result->Ok_0@ == plan,
        Err(e) => result == Err::<ChunkPlan, Error>(e),
    }
}

/// What holds of the open chunk after `n` files: until a file is placed it
/// is chunk 1 and empty; from then on it is the largest chunk index in use
/// and its bytes are within the budget.
pub proof fn lemma_fill_tracks_plan(files: Seq<FileSpec>, max: int, n: int)
    requires
        0 <= n <= files.len(),
    ensures
        any_placed(files, max, n) ==> last_chunk(planned(files, max), n) == fill_after(
            files,
            max,
            n,
        ).chunk && fill_after(files, max, n).sum <= max,
        !any_placed(files, max, n) ==> last_chunk(planned(files, max), n) == 0 && fill_after(
            files,
            max,
            n,
        ) == (Fill { chunk: 1, sum: 0 }),
        1 <= fill_after(files, max, n).chunk <= n + 1,
    decreases n,
{
    if n > 0 {
        lemma_fill_tracks_plan(files, max, n - 1);
        let plan = planned(files, max);
        assert(plan[n - 1].chunk == assigned_chunk(files, max, n - 1));
        if files[n - 1].length <= max {
            assert(any_placed(files, max, n));
        } else if any_placed(files, max, n - 1) {
            let j = choose|j: int| 0 <= j < n - 1 && (#[trigger] files[j]).length <= max;
            assert(0 <= j < n && files[j].length <= max);
        } else {
            assert forall|j: int| 0 <= j < n implies (#[trigger] files[j]).length > max by {
                if j < n - 1 {
                    assert(!(0 <= j < n - 1 && files[j].length <= max));
                }
            }
        }
        if any_placed(files, max, n - 1) {
            let j = choose|j: int| 0 <= j < n - 1 && (#[trigger] files[j]).length <= max;
            assert(0 <= j < n && files[j].length <= max);
        }
    }
}

/// The chunk indices of a plan start at 1, never step back and never skip a
/// value, and every file has one outcome: `EXCLUDED` or a chunk index.
pub proof fn lemma_planned_is_well_ordered(files: Seq<FileSpec>, max: int)
    ensures
        well_ordered(planned(files, max)),
        planned(files, max).len() == files.len(),
        forall|i: int|
            0 <= i < files.len() ==> ((#[trigger] planned(files, max)[i]).chunk == EXCLUDED
                <==> files[i].length > max),
{
    let plan = planned(files, max);
    assert forall|i: int| 0 <= i < plan.len() implies ((#[trigger] plan[i]).chunk == EXCLUDED
        || plan[i].chunk >= 1) && (plan[i].chunk != EXCLUDED ==> last_chunk(plan, i)
        <= plan[i].chunk <= last_chunk(plan, i) + 1) && (plan[i].chunk == EXCLUDED
        <==> files[i].length > max) by {
        lemma_fill_tracks_plan(files, max, i);
        lemma_fill_tracks_plan(files, max, i + 1);
    }
}

/// In a well-ordered plan every chunk index from 1 up to the largest one in
/// use holds a file.
pub proof fn lemma_no_chunk_is_skipped(plan: Seq<FileEntry>, n: int, k: int)
    requires
        well_ordered(plan),
        0 <= n <= plan.len(),
        1 <= k <= last_chunk(plan, n),
    ensures
        exists|i: int| 0 <= i < n && (#[trigger] plan[i]).chunk == k,
    decreases n,
{
    if n > 0 {
        if plan[n - 1].chunk == k {
            assert(0 <= n - 1 < n && plan[n - 1].chunk == k);
        } else {
            lemma_no_chunk_is_skipped(plan, n - 1, k);
            let i = choose|i: int| 0 <= i < n - 1 && (#[trigger] plan[i]).chunk == k;
            assert(0 <= i < n && plan[i].chunk == k);
        }
    }
}

/// The bytes of the open chunk are those that the fill counts; a chunk that
/// was closed holds no more than the budget, and a chunk that was not
/// opened yet holds nothing.
pub proof fn lemma_fill_counts_bytes(files: Seq<FileSpec>, max: int, n: int, k: int)
    requires
        0 <= n <= files.len(),
    ensures
        k == fill_after(files, max, n).chunk ==> bytes_in(planned(files, max), k, n) == fill_after(
            files,
            max,
            n,
        ).sum,
        k > fill_after(files, max, n).chunk ==> bytes_in(planned(files, max), k, n) == 0,
        1 <= k < fill_after(files, max, n).chunk ==> bytes_in(planned(files, max), k, n) <= max,
    decreases n,
{
    if n > 0 {
        lemma_fill_counts_bytes(files, max, n - 1, k);
        lemma_fill_tracks_plan(files, max, n - 1);
        let plan = planned(files, max);
        assert(plan[n - 1].chunk == assigned_chunk(files, max, n - 1));
        if !any_placed(files, max, n - 1) {
            assert(fill_after(files, max, n - 1).sum == 0);
        }
    }
}

/// No chunk of a plan holds more bytes than the budget.
pub proof fn lemma_planned_chunks_fit(files: Seq<FileSpec>, max: int, k: int)
    requires
        1 <= k <= last_chunk(planned(files, max), files.len() as int),
    ensures
        bytes_in(planned(files, max), k, files.len() as int) <= max,
{
    let n = files.len() as int;
    lemma_fill_tracks_plan(files, max, n);
    lemma_fill_counts_bytes(files, max, n, k);
}

/// Whether the file at position `i` of a plan was placed by the rule: it
/// is in the first chunk if no file was placed before it, else in the open
/// chunk if its bytes still fit there, else in the next chunk.
pub open spec fn placed_by_rule(plan: Seq<FileEntry>, max: int, i: int) -> bool {
    let open = last_chunk(plan, i);
    if open == 0 {
        plan[i].chunk == 1
    } else if bytes_in(plan, open, i) + plan[i].length <= max {
        plan[i].chunk == open
    } else {
        plan[i].chunk == open + 1
    }
}

/// Whether a plan holds the files of a pack in their order, excludes the
/// files over the budget and no others, and places every other file by the
/// rule.
pub open spec fn follows_rule(plan: Seq<FileEntry>, files: Seq<FileSpec>, max: int) -> bool {
    &&& plan.len() == files.len()
    &&& forall|i: int|
        0 <= i < plan.len() ==> (#[trigger] plan[i]).path == files[i].path && plan[i].length
            == files[i].length
    &&& forall|i: int|
        0 <= i < plan.len() ==> ((#[trigger] plan[i]).chunk == EXCLUDED <==> files[i].length > max)
    &&& forall|i: int|
        0 <= i < plan.len() && (#[trigger] plan[i]).chunk != EXCLUDED ==> placed_by_rule(
            plan,
            max,
            i,
        )
}

/// The plan of a pack follows the rule.
pub proof fn lemma_planned_follows_rule(files: Seq<FileSpec>, max: int)
    ensures
        follows_rule(planned(files, max), files, max),
{
    let plan = planned(files, max);
    lemma_planned_is_well_ordered(files, max);
    assert forall|i: int| 0 <= i < plan.len() && (#[trigger] plan[i]).chunk
        != EXCLUDED implies placed_by_rule(plan, max, i) by {
        lemma_fill_tracks_plan(files, max, i);
        lemma_fill_counts_bytes(files, max, i, last_chunk(plan, i));
    }
}

/// Two plans with the same chunks at the first `n` positions have the same
/// chunk open after them, with the same bytes in each chunk.
proof fn lemma_same_start(first: Seq<FileEntry>, second: Seq<FileEntry>, n: int, k: int)
    requires
        0 <= n <= first.len(),
        first.len() == second.len(),
        forall|i: int|
            0 <= i < n ==> (#[trigger] first[i]).chunk == second[i].chunk && first[i].length
                == second[i].length,
    ensures
        last_chunk(first, n) == last_chunk(second, n),
        bytes_in(first, k, n) == bytes_in(second, k, n),
    decreases n,
{
    if n > 0 {
        lemma_same_start(first, second, n - 1, k);
        assert(first[n - 1].chunk == second[n - 1].chunk);
    }
}

proof fn lemma_rule_fixes_chunks(plan: Seq<FileEntry>, files: Seq<FileSpec>, max: int, n: int)
    requires
        follows_rule(plan, files, max),
        0 <= n <= files.len(),
    ensures
        forall|i: int| 0 <= i < n ==> (#[trigger] plan[i]).chunk == planned(files, max)[i].chunk,
    decreases n,
{
    if n > 0 {
        let other = planned(files, max);
        lemma_rule_fixes_chunks(plan, files, max, n - 1);
        lemma_planned_follows_rule(files, max);
        assert(plan[n - 1].length == other[n - 1].length);
        assert forall|i: int| 0 <= i < n - 1 implies (#[trigger] plan[i]).chunk == other[i].chunk
            && plan[i].length == other[i].length by {
            assert(other[i].length == files[i].length);
        }
        lemma_same_start(plan, other, n - 1, last_chunk(plan, n - 1));
        if plan[n - 1].chunk != EXCLUDED {
            assert(placed_by_rule(plan, max, n - 1));
            assert(other[n - 1].chunk != EXCLUDED);
            assert(placed_by_rule(other, max, n - 1));
        }
    }
}

/// The rule leaves no choice: a plan that follows it is the plan of the
/// pack.
pub proof fn lemma_rule_fixes_plan(plan: Seq<FileEntry>, files: Seq<FileSpec>, max: int)
    requires
        follows_rule(plan, files, max),
    ensures
        plan == planned(files, max),
{
    lemma_rule_fixes_chunks(plan, files, max, files.len() as int);
    assert(plan =~= planned(files, max));
}

/// A chunk above the largest index in use holds no file and no byte.
pub proof fn lemma_unused_chunk_is_empty(plan: Seq<FileEntry>, k: int, n: int)
    requires
        0 <= n <= plan.len(),
        k > last_chunk(plan, n),
    ensures
        bytes_in(plan, k, n) == 0,
        count_in(plan, k, n) == 0,
    decreases n,
{
    if n > 0 {
        lemma_unused_chunk_is_empty(plan, k, n - 1);
    }
}

/// With lengths that are not negative, the bytes of a chunk only grow.
pub proof fn lemma_bytes_grow(plan: Seq<FileEntry>, k: int, i: int, m: int)
    requires
        0 <= i <= m <= plan.len(),
        forall|j: int| 0 <= j < plan.len() ==> 0 <= (#[trigger] plan[j]).length,
    ensures
        0 <= bytes_in(plan, k, i) <= bytes_in(plan, k, m),
    decreases m,
{
    if m > i {
        lemma_bytes_grow(plan, k, i, m - 1);
    } else if i > 0 {
        lemma_bytes_grow(plan, k, i - 1, i - 1);
    }
}

/// The plan of valid files under a budget is a valid plan.
pub proof fn lemma_planned_is_valid(files: Seq<FileSpec>, max: int)
    requires
        valid_files(files),
        max <= i64::MAX,
    ensures
        valid_plan(planned(files, max)),
{
    let plan = planned(files, max);
    let n = files.len() as int;
    lemma_planned_is_well_ordered(files, max);
    assert forall|k: int| 1 <= k implies #[trigger] bytes_in(plan, k, n) <= i64::MAX by {
        if k <= last_chunk(plan, n) {
            lemma_planned_chunks_fit(files, max, k);
        } else {
            lemma_unused_chunk_is_empty(plan, k, n);
        }
    }
}

/// The plan of a pack: its files in the pack's order, each with its chunk.
pub struct ChunkPlan {
    entries: Vec<RplFile>,
}

impl View for ChunkPlan {
    type V = Seq<FileEntry>;

    closed spec fn view(&self) -> Seq<FileEntry> {
        file_entries(self.entries@)
    }
}

impl ChunkPlan {
    #[verifier::type_invariant]
    pub open spec fn is_valid(self) -> bool {
        valid_plan(self@)
    }

    /// The plan of these entries, if they are a valid plan.
    pub fn from_entries(entries: Vec<RplFile>) -> (plan: Option<Self>)
        ensures
            plan is Some <==> valid_plan(file_entries(entries@)),
            plan matches Some(p) ==> p@ == file_entries(entries@),
    {
        let ghost all = file_entries(entries@);
        let n = entries.len();
        if n >= i32::MAX as usize {
            return None;
        }
        let mut last: i32 = 0;
        let mut sum: i64 = 0;
        let mut index: usize = 0;
        while index < n
            invariant
                all == file_entries(entries@),
                n == entries.len(),
                n < i32::MAX,
                0 <= index <= n,
                0 <= last <= index,
                last == last_chunk(all, index as int),
                sum == bytes_in(all, last as int, index as int),
                forall|j: int| 0 <= j < index ==> 0 <= (#[trigger] all[j]).length,
                forall|j: int|
                    0 <= j < index ==> (#[trigger] all[j]).chunk == EXCLUDED || (all[j].chunk >= 1
                        && last_chunk(all, j) <= all[j].chunk <= last_chunk(all, j) + 1),
                forall|k: int|
                    1 <= k < last ==> #[trigger] bytes_in(all, k, index as int) <= i64::MAX,
            decreases n - index,
        {
            let entry = &entries[index];
            assert(all[index as int] == entry@);
            proof {
                lemma_unused_chunk_is_empty(all, last + 1, index as int);
            }
            if entry.length < 0 {
                return None;
            }
            let ghost open = last as int;
            let ghost held = sum as int;
            if entry.chunk != EXCLUDED {
                if entry.chunk < 1 {
                    return None;
                } else if entry.chunk == last {
                    match sum.checked_add(entry.length) {
                        Some(more) => {
                            sum = more;
                        },
                        None => {
                            proof {
                                if valid_plan(all) {
                                    lemma_bytes_grow(all, last as int, index as int + 1, n as int);
                                }
                            }
                            return None;
                        },
                    }
                } else if entry.chunk == last + 1 {
                    last = last + 1;
                    sum = entry.length;
                } else {
                    return None;
                }
            }
            proof {
                assert forall|k: int| 1 <= k < last implies #[trigger] bytes_in(
                    all,
                    k,
                    index as int + 1,
                ) <= i64::MAX by {
                    if k == open {
                        assert(bytes_in(all, k, index as int) == held);
                    } else {
                        assert(bytes_in(all, k, index as int) <= i64::MAX);
                    }
                }
            }
            index = index + 1;
        }
        proof {
            assert forall|k: int| 1 <= k implies #[trigger] bytes_in(all, k, n as int)
                <= i64::MAX by {
                if k > last {
                    lemma_unused_chunk_is_empty(all, k, n as int);
                }
            }
        }
        Some(ChunkPlan { entries })
    }

    /// The entry of the first file with the path `path`, if there is one.
    pub fn find(&self, path: &str) -> (entry: Option<&RplFile>)
        ensures
            match entry {
                Some(found) => holds_path_at(self@, path@, position_of(self@, path@, 0))
                    && found@ == self@[position_of(self@, path@, 0)],
                None => forall|i: int| 0 <= i < self@.len() ==> (#[trigger] self@[i]).path != path@,
            },
    {
        let wanted = String::from_str(path);
        let mut index: usize = 0;
        while index < self.entries.len()
            invariant
                0 <= index <= self.entries.len(),
                wanted@ == path@,
                forall|i: int| 0 <= i < index ==> (#[trigger] self@[i]).path != path@,
                position_of(self@, path@, 0) == position_of(self@, path@, index as int),
            decreases self.entries.len() - index,
        {
            assert(self@[index as int] == self.entries[index as int]@);
            if self.entries[index].filename == wanted {
                return Some(&self.entries[index]);
            }
            index = index + 1;
        }
        None
    }

    /// The positions of the files of the pack that are not in the chunk
    /// `chunk`, excluded files among them: the list of the files that must
    /// not download while that chunk does. `None` if the chunk holds every
    /// file.
    pub fn files_outside(&self, chunk: i32) -> (others: Option<String>)
        ensures
            others is Some <==> has_outside(self@, chunk as int, self@.len() as int),
            others matches Some(text) ==> text@ == outside_text(
                self@,
                chunk as int,
                self@.len() as int,
            ),
    {
        proof {
            use_type_invariant(self);
        }
        let n = self.entries.len();
        let mut text = String::new();
        let mut found = false;
        let mut index: usize = 0;
        while index < n
            invariant
                n == self.entries.len(),
                n == self@.len(),
                n < i32::MAX,
                0 <= index <= n,
                text@ == outside_text(self@, chunk as int, index as int),
                found == (text@.len() > 0),
            decreases n - index,
        {
            assert(self@[index as int] == self.entries[index as int]@);
            if self.entries[index].chunk != chunk {
                if found {
                    text.append(" | ");
                }
                push_decimal(&mut text, index as i64);
                found = true;
                proof {
                    lemma_decimal_is_not_empty(index as int);
                }
            }
            index = index + 1;
        }
        proof {
            lemma_outside_text_is_empty(self@, chunk as int, n as int);
        }
        if found {
            Some(text)
        } else {
            None
        }
    }

    /// The number of files, excluded ones included.
    pub fn len(&self) -> (n: usize)
        ensures
            n == self@.len(),
            n < i32::MAX,
    {
        proof {
            use_type_invariant(self);
        }
        self.entries.len()
    }

    /// The entry of the file at position `i` of the pack, if there is one.
    pub fn get(&self, i: usize) -> (entry: Option<&RplFile>)
        ensures
            i < self@.len() ==> entry is Some && entry.unwrap()@ == self@[i as int],
            i >= self@.len() ==> entry is None,
    {
        if i < self.entries.len() {
            Some(&self.entries[i])
        } else {
            None
        }
    }
}

/// Plans the files of a pack under the budget `max`. With `force` a file
/// over the budget is excluded; without it such a file fails the plan.
pub fn plan_chunks(files: &Vec<PackFile>, max: i64, force: bool) -> (result: Result<
    ChunkPlan,
    Error,
>)
    requires
        valid_files(file_specs(files@)),
    ensures
        plans_as(result, plan_outcome(file_specs(files@), max as int, force)),
        result matches Ok(plan) ==> valid_plan(plan@),
{
    let ghost specs = file_specs(files@);
    let n = files.len();
    if n == 0 {
        return Err(Error::NothingToLeech);
    }
    let mut entries: Vec<RplFile> = Vec::new();
    let mut current_chunk: i32 = 1;
    let mut current_sum: i64 = 0;
    let mut index: usize = 0;
    while index < n
        invariant
            n == files.len(),
            specs == file_specs(files@),
            valid_files(specs),
            0 <= index <= n,
            entries.len() == index,
            current_chunk == fill_after(specs, max as int, index as int).chunk,
            current_sum == fill_after(specs, max as int, index as int).sum,
            1 <= current_chunk <= index + 1,
            0 <= current_sum,
            current_sum > 0 ==> current_sum <= max,
            forall|j: int|
                0 <= j < index ==> (#[trigger] entries[j])@ == planned(specs, max as int)[j],
            force || forall|j: int| 0 <= j < index ==> (#[trigger] specs[j]).length <= max,
        decreases n - index,
    {
        let file = &files[index];
        assert(specs[index as int] == file@);
        let chunk: i32;
        if file.length > max {
            if !force {
                return Err(Error::MaxSizeAllowedTooSmall);
            }
            chunk = EXCLUDED;
        } else if current_sum <= max - file.length {
            current_sum = current_sum + file.length;
            chunk = current_chunk;
        } else {
            current_chunk = current_chunk + 1;
            current_sum = file.length;
            chunk = current_chunk;
        }
        entries.push(RplFile::new(file.path.clone(), file.length, chunk));
        index = index + 1;
    }
    proof {
        lemma_planned_is_valid(specs, max as int);
        assert(file_entries(entries@) =~= planned(specs, max as int));
        if !force {
            assert(!has_oversize(specs, max as int));
        }
    }
    Ok(ChunkPlan { entries })
}

/// Planning the same files under the same budget and policy again gives
/// the same outcome: the same error, or a plan with the same entries.
pub proof fn lemma_planning_is_repeatable(
    files: Seq<FileSpec>,
    max: int,
    force: bool,
    first: Result<ChunkPlan, Error>,
    second: Result<ChunkPlan, Error>,
)
    requires
        plans_as(first, plan_outcome(files, max, force)),
        plans_as(second, plan_outcome(files, max, force)),
    ensures
        first is Ok <==> second is Ok,
        first is Ok ==> first->Ok_0@ == second->Ok_0@,
        first is Err ==> first == second,
{
}

} // verus!
