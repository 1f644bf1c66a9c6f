//! Static partitioning of a work list into contiguous index ranges, one per
//! worker.

use vstd::arithmetic::div_mod::lemma_fundamental_div_mod;
use vstd::arithmetic::mul::lemma_mul_inequality;
use vstd::prelude::*;

verus! {

/// The mathematical form of a half-open index range `[start, end)`.
pub struct Span {
    pub start: int,
    pub end: int,
}

impl Span {
    /// Whether index `j` lies in the range.
    pub open spec fn contains(self, j: int) -> bool {
        self.start <= j < self.end
    }

    /// The number of indices in the range; a range whose start lies at or
    /// beyond its end holds none.
    pub open spec fn len(self) -> int {
        if self.start <= self.end {
            self.end - self.start
        } else {
            0
        }
    }
}

/// The number of workers that share `item_count` items when at most
/// `max_workers` may run: the smaller of the two.
pub open spec fn worker_count(item_count: nat, max_workers: nat) -> nat {
    if item_count <= max_workers {
        item_count
    } else {
        max_workers
    }
}

/// The size of a full range: `item_count` divided by the worker count and
/// rounded up. Zero where there are no workers.
pub open spec fn chunk_size(item_count: nat, max_workers: nat) -> nat {
    let workers = worker_count(item_count, max_workers);
    if workers == 0 {
        0
    } else {
        ((item_count + workers - 1) / (workers as int)) as nat
    }
}

/// The range of worker `i`: it starts after `i` full chunks and ends one
/// chunk later, or with the list where that comes first.
pub open spec fn planned_span(item_count: nat, max_workers: nat, i: int) -> Span {
    let chunk = chunk_size(item_count, max_workers);
    Span {
        start: i * chunk,
        end: if (i + 1) * chunk <= item_count {
            (i + 1) * chunk
        } else {
            item_count as int
        },
    }
}

/// The whole plan: one range per worker, by worker index.
pub open spec fn planned_spans(item_count: nat, max_workers: nat) -> Seq<Span> {
    Seq::new(
        worker_count(item_count, max_workers),
        |i: int| planned_span(item_count, max_workers, i),
    )
}

/// The worker that index `j` of the list falls to.
pub open spec fn owner(item_count: nat, max_workers: nat, j: int) -> int {
    j / (chunk_size(item_count, max_workers) as int)
}

/// Whether every bound of the plan can be held in a `usize`. The largest
/// bound is the start of the last range.
pub open spec fn plan_fits(item_count: nat, max_workers: nat) -> bool {
    (worker_count(item_count, max_workers) - 1) * chunk_size(item_count, max_workers)
        <= usize::MAX
}

/// Whether the last range of the plan starts inside the list.
pub open spec fn last_range_starts_inside(item_count: nat, max_workers: nat) -> bool {
    (worker_count(item_count, max_workers) - 1) * chunk_size(item_count, max_workers)
        < item_count
}

/// A half-open range `[start, end)` of indices into the work list.
#[derive(Clone, Copy, Debug, PartialEq, Eq, Structural)]
pub struct IndexRange {
    pub start: usize,
    pub end: usize,
}

impl View for IndexRange {
    type V = Span;

    open spec fn view(&self) -> Span {
        Span { start: self.start as int, end: self.end as int }
    }
}

impl IndexRange {
    /// The number of indices in the range.
    pub fn len(&self) -> (n: usize)
        ensures
            n == self@.len(),
    {
        if self.start <= self.end {
            self.end - self.start
        } else {
            0
        }
    }

    /// Whether the range holds no index.
    pub fn is_empty(&self) -> (b: bool)
        ensures
            b == (self@.len() == 0),
    {
        self.start >= self.end
    }

    /// Whether index `j` lies in the range.
    pub fn contains(&self, j: usize) -> (b: bool)
        ensures
            b == self@.contains(j as int),
    {
        self.start <= j && j < self.end
    }
}

/// The assignment of index ranges to workers: worker `i` owns range `i`.
#[derive(Clone, Debug, PartialEq, Eq)]
pub struct PartitionPlan {
    ranges: Vec<IndexRange>,
}

impl View for PartitionPlan {
    type V = Seq<Span>;

    closed spec fn view(&self) -> Seq<Span> {
        Seq::new(self.ranges@.len(), |i: int| self.ranges@[i]@)
    }
}

impl PartitionPlan {
    /// The number of ranges, one per worker.
    pub fn worker_count(&self) -> (n: usize)
        ensures
            n == self@.len(),
    {
        self.ranges.len()
    }

    /// The range of worker `i`, if the plan has that many workers.
    pub fn range(&self, i: usize) -> (r: Option<IndexRange>)
        ensures
            (match r {
                Some(range) => i < self@.len() && range@ == self@[i as int],
                None => i >= self@.len(),
            }),
    {
        if i < self.ranges.len() {
            Some(self.ranges[i])
        } else {
            None
        }
    }
}

/// The chunk size is the item count divided by the worker count and rounded
/// up: that many items per worker are enough for the whole list, and one
/// fewer per worker would not be.
pub proof fn lemma_chunk_size_is_ceiling(item_count: nat, max_workers: nat)
    requires
        max_workers >= 1,
    ensures
        worker_count(item_count, max_workers) * chunk_size(item_count, max_workers)
            >= item_count,
        item_count >= 1 ==> worker_count(item_count, max_workers) * (chunk_size(
            item_count,
            max_workers,
        ) - 1) < item_count,
        item_count >= 1 ==> chunk_size(item_count, max_workers) >= 1,
        item_count == 0 ==> chunk_size(item_count, max_workers) == 0,
{
    let workers = worker_count(item_count, max_workers) as int;
    let chunk = chunk_size(item_count, max_workers) as int;
    if workers > 0 {
        let padded = item_count + workers - 1;
        lemma_fundamental_div_mod(padded, workers);
        assert(padded / workers >= 0) by (nonlinear_arith)
            requires
                padded >= 0,
                workers > 0,
        ;
        assert(workers * chunk >= item_count && workers * (chunk - 1) < item_count && chunk >= 1)
            by (nonlinear_arith)
            requires
                workers > 0,
                item_count >= 1,
                padded == item_count + workers - 1,
                padded == workers * chunk + padded % workers,
                0 <= padded % workers < workers,
        ;
    } else {
        assert(workers * chunk == 0) by (nonlinear_arith)
            requires
                chunk == 0,
        ;
    }
}

/// The start of the last range lies less than one worker count beyond the
/// list, so a plan fits wherever the item count and the worker count
/// together do.
pub proof fn lemma_plan_fits(item_count: nat, max_workers: nat)
    requires
        max_workers >= 1,
        item_count + worker_count(item_count, max_workers) <= usize::MAX,
    ensures
        plan_fits(item_count, max_workers),
{
    let workers = worker_count(item_count, max_workers) as int;
    let chunk = chunk_size(item_count, max_workers) as int;
    lemma_chunk_size_is_ceiling(item_count, max_workers);
    if item_count >= 1 {
        assert((workers - 1) * chunk <= item_count + workers) by (nonlinear_arith)
            requires
                workers >= 1,
                chunk >= 1,
                workers * (chunk - 1) < item_count,
        ;
    } else {
        assert((workers - 1) * chunk == 0) by (nonlinear_arith)
            requires
                chunk == 0,
        ;
    }
}

/// The smaller of the item count and the worker limit.
fn count_workers(item_count: usize, max_workers: usize) -> (workers: usize)
    ensures
        workers == worker_count(item_count as nat, max_workers as nat),
{
    if item_count <= max_workers {
        item_count
    } else {
        max_workers
    }
}

/// The item count divided by the number of workers, rounded up.
fn count_chunk(item_count: usize, max_workers: usize) -> (chunk: usize)
    requires
        max_workers >= 1,
    ensures
        chunk == chunk_size(item_count as nat, max_workers as nat),
{
    let workers = count_workers(item_count, max_workers);
    if workers == 0 {
        return 0;
    }
    let chunk: usize = (item_count - 1) / workers + 1;
    proof {
        let n = item_count as int;
        let w = workers as int;
        lemma_fundamental_div_mod(n + w - 1, w);
        lemma_fundamental_div_mod(n - 1, w);
        let below = (n - 1) / w;
        let above = (n + w - 1) / w;
        assert(above == below + 1) by (nonlinear_arith)
            requires
                w > 0,
                n + w - 1 == w * above + (n + w - 1) % w,
                n - 1 == w * below + (n - 1) % w,
                0 <= (n + w - 1) % w < w,
                0 <= (n - 1) % w < w,
        ;
    }
    chunk
}

/// Computes the plan for `item_count` items and at most `max_workers`
/// workers.
pub fn plan(item_count: usize, max_workers: usize) -> (p: PartitionPlan)
    requires
        max_workers >= 1,
        plan_fits(item_count as nat, max_workers as nat),
    ensures
        p@ == planned_spans(item_count as nat, max_workers as nat),
{
    let workers = count_workers(item_count, max_workers);
    let chunk = count_chunk(item_count, max_workers);
    let mut ranges: Vec<IndexRange> = Vec::new();
    proof {
        lemma_chunk_size_is_ceiling(item_count as nat, max_workers as nat);
    }
    let mut i: usize = 0;
    while i < workers
        invariant
            i <= workers,
            workers == worker_count(item_count as nat, max_workers as nat),
            chunk == chunk_size(item_count as nat, max_workers as nat),
            plan_fits(item_count as nat, max_workers as nat),
            workers * chunk >= item_count,
            ranges@.len() == i,
            forall|k: int|
                0 <= k < i ==> (#[trigger] ranges@[k])@ == planned_span(
                    item_count as nat,
                    max_workers as nat,
                    k,
                ),
        decreases workers - i,
    {
        proof {
            lemma_mul_inequality(i as int, workers as int - 1, chunk as int);
            if i + 1 < workers {
                lemma_mul_inequality(i as int + 1, workers as int - 1, chunk as int);
            }
        }
        let start: usize = i * chunk;
        let end: usize = if i + 1 == workers {
            item_count
        } else {
            let full: usize = (i + 1) * chunk;
            if full <= item_count {
                full
            } else {
                item_count
            }
        };
        ranges.push(IndexRange { start, end });
        i += 1;
    }
    PartitionPlan { ranges }
}

/// Computes the plan for `item_count` items and at most `max_workers`
/// workers, where there is one: for a limit of at least one worker and
/// bounds that fit.
pub fn checked_plan(item_count: usize, max_workers: usize) -> (p: Option<PartitionPlan>)
    ensures
        (match p {
            Some(made) => {
                &&& max_workers >= 1
                &&& plan_fits(item_count as nat, max_workers as nat)
                &&& made@ == planned_spans(item_count as nat, max_workers as nat)
            },
            None => max_workers == 0 || !plan_fits(item_count as nat, max_workers as nat),
        }),
{
    if max_workers == 0 {
        return None;
    }
    let workers = count_workers(item_count, max_workers);
    let chunk = count_chunk(item_count, max_workers);
    if workers == 0 {
        return Some(plan(item_count, max_workers));
    }
    match (workers - 1).checked_mul(chunk) {
        Some(_) => Some(plan(item_count, max_workers)),
        None => None,
    }
}

/// Worker `i` holds index `j` exactly if `j` lies in the list and `i` is
/// its owner.
proof fn lemma_owner(item_count: nat, max_workers: nat, i: int, j: int)
    requires
        max_workers >= 1,
        0 <= i < worker_count(item_count, max_workers),
    ensures
        planned_span(item_count, max_workers, i).contains(j) <==> 0 <= j < item_count && owner(
            item_count,
            max_workers,
            j,
        ) == i,
{
    let chunk = chunk_size(item_count, max_workers) as int;
    lemma_chunk_size_is_ceiling(item_count, max_workers);
    lemma_fundamental_div_mod(j, chunk);
    let q = j / chunk;
    assert(0 <= i * chunk) by (nonlinear_arith)
        requires
            0 <= i,
            0 <= chunk,
    ;
    assert((i * chunk <= j < (i + 1) * chunk) <==> q == i) by (nonlinear_arith)
        requires
            chunk >= 1,
            j == chunk * q + j % chunk,
            0 <= j % chunk < chunk,
    ;
}

/// The ranges of a plan are as many as the smaller of the item count and
/// the worker limit. Every index of the list lies in the range of its
/// owner, no two ranges share an index, and no range holds an index outside
/// the list.
pub proof fn lemma_ranges_partition(item_count: nat, max_workers: nat)
    requires
        max_workers >= 1,
    ensures
        ({
            let spans = planned_spans(item_count, max_workers);
            &&& spans.len() == if item_count <= max_workers {
                item_count
            } else {
                max_workers
            }
            &&& forall|i: int, j: int|
                0 <= i < spans.len() && #[trigger] spans[i].contains(j) ==> 0 <= j < item_count
            &&& forall|j: int|
                0 <= j < item_count ==> 0 <= #[trigger] owner(item_count, max_workers, j)
                    < spans.len() && spans[owner(item_count, max_workers, j)].contains(j)
            &&& forall|i: int, k: int, j: int|
                0 <= i < spans.len() && 0 <= k < spans.len() && i != k ==> !(
                #[trigger] spans[i].contains(j) && #[trigger] spans[k].contains(j))
        }),
{
    let spans = planned_spans(item_count, max_workers);
    let chunk = chunk_size(item_count, max_workers) as int;
    assert forall|i: int, j: int| 0 <= i < spans.len() && #[trigger] spans[i].contains(
        j,
    ) implies 0 <= j < item_count by {
        lemma_owner(item_count, max_workers, i, j);
    }
    assert forall|j: int| 0 <= j < item_count implies 0 <= #[trigger] owner(
        item_count,
        max_workers,
        j,
    ) < spans.len() && spans[owner(item_count, max_workers, j)].contains(j) by {
        lemma_chunk_size_is_ceiling(item_count, max_workers);
        lemma_fundamental_div_mod(j, chunk);
        let q = owner(item_count, max_workers, j);
        assert(0 <= q < spans.len()) by (nonlinear_arith)
            requires
                chunk >= 1,
                0 <= j < item_count,
                spans.len() * chunk >= item_count,
                j == chunk * q + j % chunk,
                0 <= j % chunk < chunk,
        ;
        lemma_owner(item_count, max_workers, q, j);
    }
    assert forall|i: int, k: int, j: int|
        0 <= i < spans.len() && 0 <= k < spans.len() && i != k implies !(
    #[trigger] spans[i].contains(j) && #[trigger] spans[k].contains(j)) by {
        lemma_owner(item_count, max_workers, i, j);
        lemma_owner(item_count, max_workers, k, j);
    }
}

/// No range is longer than the chunk size, and none is shorter than the
/// last range, which takes up what the list falls short of full chunks: the
/// last range is short of the chunk size by no more than the plan's slack,
/// which is what as many full chunks as there are workers would hold beyond
/// the list.
pub proof fn lemma_range_sizes(item_count: nat, max_workers: nat, i: int)
    requires
        max_workers >= 1,
        0 <= i < worker_count(item_count, max_workers),
    ensures
        ({
            let workers = worker_count(item_count, max_workers);
            let chunk = chunk_size(item_count, max_workers);
            let last = planned_span(item_count, max_workers, workers - 1);
            &&& 0 <= last.len() <= planned_span(item_count, max_workers, i).len() <= chunk
            &&& chunk - last.len() <= workers * chunk - item_count
        }),
{
    let workers = worker_count(item_count, max_workers) as int;
    let chunk = chunk_size(item_count, max_workers) as int;
    lemma_chunk_size_is_ceiling(item_count, max_workers);
    assert((i + 1) * chunk == i * chunk + chunk && i * chunk <= (workers - 1) * chunk && 0 <= i
        * chunk && (workers - 1) * chunk + chunk == workers * chunk) by (nonlinear_arith)
        requires
            0 <= i < workers,
            chunk >= 1,
    ;
}

/// Where the last range starts inside the list, every range ends where the
/// next one starts, every range but the last is one full chunk, and the
/// last range is not empty and ends with the list.
pub proof fn lemma_full_chunks(item_count: nat, max_workers: nat, i: int)
    requires
        max_workers >= 1,
        0 <= i < worker_count(item_count, max_workers),
        last_range_starts_inside(item_count, max_workers),
    ensures
        i + 1 < worker_count(item_count, max_workers) ==> ({
            &&& planned_span(item_count, max_workers, i).len() == chunk_size(
                item_count,
                max_workers,
            )
            &&& planned_span(item_count, max_workers, i).end == planned_span(
                item_count,
                max_workers,
                i + 1,
            ).start
        }),
        i + 1 == worker_count(item_count, max_workers) ==> ({
            &&& planned_span(item_count, max_workers, i).len() >= 1
            &&& planned_span(item_count, max_workers, i).end == item_count
        }),
{
    let workers = worker_count(item_count, max_workers) as int;
    let chunk = chunk_size(item_count, max_workers) as int;
    lemma_chunk_size_is_ceiling(item_count, max_workers);
    assert((i + 1) * chunk == i * chunk + chunk && 0 <= i * chunk) by (nonlinear_arith)
        requires
            0 <= i,
            chunk >= 1,
    ;
    if i + 1 < workers {
        lemma_mul_inequality(i + 1, workers - 1, chunk);
    }
}

/// Two plans made for the same item count and the same worker limit are the
/// same plan.
pub proof fn lemma_plan_is_determined(
    first: PartitionPlan,
    second: PartitionPlan,
    item_count: nat,
    max_workers: nat,
)
    requires
        first@ == planned_spans(item_count, max_workers),
        second@ == planned_spans(item_count, max_workers),
    ensures
        first@ == second@,
{
}

/// The plan for an empty list has no range, whatever the worker limit.
pub proof fn lemma_empty_list_has_no_ranges(max_workers: nat)
    ensures
        planned_spans(0, max_workers) == Seq::<Span>::empty(),
{
}

} // verus!
