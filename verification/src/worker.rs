//! A worker: the sequence of decisions that takes one range of the work list
//! from its first item to its last. The worker performs nothing itself. It is
//! told what happened and answers what to do next.

use crate::fetch::{
    destination, destination_path, FetchRequest, FetchRequestView, FetchResult, FetchResultView,
    PathStyle,
};
use crate::partition::{
    lemma_ranges_partition, owner, planned_spans, IndexRange, PartitionPlan, Span,
};
use crate::report::{progress_group, progress_lines, texts_view};
use crate::source::{items_view, WorkItem, WorkItemView};
use vstd::prelude::*;

verus! {

/// The mathematical form of a worker's phase.
pub enum PhaseView {
    Idle,
    Fetching { destination: Seq<char> },
    Finished,
    Aborted,
}

/// Where a worker stands.
#[derive(Clone, Debug, PartialEq, Eq)]
pub enum Phase {
    /// Between two fetches: ready to take its next item.
    Idle,
    /// A fetch was ordered and has not ended; the file goes to `destination`.
    Fetching { destination: String },
    /// The range is exhausted.
    Finished,
    /// The fetcher could not be started; the rest of the range is given up.
    Aborted,
}

impl View for Phase {
    type V = PhaseView;

    open spec fn view(&self) -> PhaseView {
        match self {
            Phase::Idle => PhaseView::Idle,
            Phase::Fetching { destination } => PhaseView::Fetching { destination: destination@ },
            Phase::Finished => PhaseView::Finished,
            Phase::Aborted => PhaseView::Aborted,
        }
    }
}

/// The mathematical form of an event.
pub enum EventView {
    Ready,
    SpawnFailed,
    Line(Seq<char>),
    Exited { success: bool },
}

/// What a worker is told.
#[derive(Clone, Debug, PartialEq, Eq)]
pub enum Event {
    /// The worker is free to go on.
    Ready,
    /// The fetcher could not be started.
    SpawnFailed,
    /// The running fetcher wrote one line.
    Line(String),
    /// The fetcher exited, reporting success or failure.
    Exited { success: bool },
}

impl View for Event {
    type V = EventView;

    open spec fn view(&self) -> EventView {
        match self {
            Event::Ready => EventView::Ready,
            Event::SpawnFailed => EventView::SpawnFailed,
            Event::Line(line) => EventView::Line(line@),
            Event::Exited { success } => EventView::Exited { success: *success },
        }
    }
}

/// The mathematical form of an action.
pub enum ActionView {
    Launch(FetchRequestView),
    Relay(Seq<Seq<char>>),
    Report(FetchResultView),
    Finish,
    Abort,
    Ignore,
}

/// What a worker answers.
#[derive(Clone, Debug, PartialEq, Eq)]
pub enum Action {
    /// Start the fetcher on this request.
    Launch(FetchRequest),
    /// Print these lines as one group.
    Relay(Vec<String>),
    /// Print the status line of this result.
    Report(FetchResult),
    /// Nothing is left to do.
    Finish,
    /// Stop at once: the fetcher cannot be started.
    Abort,
    /// The event does not belong to the worker's phase and changes nothing.
    Ignore,
}

impl View for Action {
    type V = ActionView;

    open spec fn view(&self) -> ActionView {
        match self {
            Action::Launch(request) => ActionView::Launch(request@),
            Action::Relay(lines) => ActionView::Relay(texts_view(lines@)),
            Action::Report(result) => ActionView::Report(result@),
            Action::Finish => ActionView::Finish,
            Action::Abort => ActionView::Abort,
            Action::Ignore => ActionView::Ignore,
        }
    }
}

/// The mathematical form of a worker.
pub struct WorkerView {
    pub id: nat,
    pub range: Span,
    pub cursor: int,
    pub phase: PhaseView,
}

impl WorkerView {
    /// The worker of identity `id` before it has taken anything from `range`.
    pub open spec fn fresh(id: nat, range: Span) -> WorkerView {
        WorkerView { id, range, cursor: range.start, phase: PhaseView::Idle }
    }

    /// Whether item `cursor` is the worker's to fetch: it lies before the
    /// end of the range and in the list.
    pub open spec fn has_item(self, list_len: nat) -> bool {
        self.cursor < self.range.end && self.cursor < list_len
    }
}

/// The order to fetch item `index` of `list` into the directory `subject`.
pub open spec fn request_for(
    list: Seq<WorkItemView>,
    subject: Seq<char>,
    style: PathStyle,
    index: int,
) -> FetchRequestView {
    FetchRequestView {
        index,
        url: list[index].url,
        destination: destination(subject, list[index].name, style),
    }
}

/// What a worker in state `w` makes of `event`: its next state, and its
/// answer.
pub open spec fn transition(
    w: WorkerView,
    list: Seq<WorkItemView>,
    subject: Seq<char>,
    style: PathStyle,
    event: EventView,
) -> (WorkerView, ActionView) {
    match (w.phase, event) {
        (PhaseView::Idle, EventView::Ready) => {
            if w.has_item(list.len()) {
                let request = request_for(list, subject, style, w.cursor);
                (
                    WorkerView {
                        phase: PhaseView::Fetching { destination: request.destination },
                        ..w
                    },
                    ActionView::Launch(request),
                )
            } else {
                (WorkerView { phase: PhaseView::Finished, ..w }, ActionView::Finish)
            }
        },
        (PhaseView::Fetching { .. }, EventView::Line(line)) => (
            w,
            ActionView::Relay(progress_lines(w.id, line)),
        ),
        (PhaseView::Fetching { destination }, EventView::Exited { success }) => (
            WorkerView { phase: PhaseView::Idle, cursor: w.cursor + 1, ..w },
            ActionView::Report(
                FetchResultView { worker: w.id, index: w.cursor, destination, success },
            ),
        ),
        (PhaseView::Fetching { .. }, EventView::SpawnFailed) => (
            WorkerView { phase: PhaseView::Aborted, ..w },
            ActionView::Abort,
        ),
        (PhaseView::Finished, EventView::Ready) => (w, ActionView::Finish),
        (PhaseView::Aborted, EventView::Ready) => (w, ActionView::Abort),
        _ => (w, ActionView::Ignore),
    }
}

/// One worker: its identity, its range, and how far it has come.
#[derive(Debug, PartialEq, Eq)]
pub struct Worker {
    id: usize,
    range: IndexRange,
    cursor: usize,
    phase: Phase,
}

impl View for Worker {
    type V = WorkerView;

    closed spec fn view(&self) -> WorkerView {
        WorkerView {
            id: self.id as nat,
            range: self.range@,
            cursor: self.cursor as int,
            phase: self.phase@,
        }
    }
}

impl Worker {
    /// While a fetch runs, the cursor stands on the item being fetched, which
    /// lies in the range.
    #[verifier::type_invariant]
    spec fn wf(self) -> bool {
        self.phase is Fetching ==> self.cursor < self.range.end
    }

    /// A worker of identity `id` that has yet to take the first item of
    /// `range`.
    pub fn new(id: usize, range: IndexRange) -> (w: Worker)
        ensures
            w@ == WorkerView::fresh(id as nat, range@),
    {
        Worker { id, range, cursor: range.start, phase: Phase::Idle }
    }

    /// The worker's identity: the index of its range in the plan.
    pub fn id(&self) -> (id: usize)
        ensures
            id == self@.id,
    {
        self.id
    }

    /// The range that the worker was given.
    pub fn range(&self) -> (range: IndexRange)
        ensures
            range@ == self@.range,
    {
        self.range
    }

    /// The index of the item that the worker fetches now, or next.
    pub fn cursor(&self) -> (cursor: usize)
        ensures
            cursor == self@.cursor,
    {
        self.cursor
    }

    /// Where the worker stands.
    pub fn phase(&self) -> (phase: &Phase)
        ensures
            phase@ == self@.phase,
    {
        &self.phase
    }

    /// Tells the worker of `event` and returns what is to be done. `list` is
    /// the work list, `subject` the directory that the files go to.
    pub fn step(
        &mut self,
        list: &Vec<WorkItem>,
        subject: &str,
        style: PathStyle,
        event: Event,
    ) -> (action: Action)
        ensures
            (final(self)@, action@) == transition(
                old(self)@,
                items_view(list@),
                subject@,
                style,
                event@,
            ),
    {
        proof {
            use_type_invariant(&*self);
        }
        match (&self.phase, event) {
            (Phase::Idle, Event::Ready) => {
                if self.cursor < self.range.end && self.cursor < list.len() {
                    let item = &list[self.cursor];
                    let path = destination_path(subject, item.name.as_str(), style);
                    let request = FetchRequest {
                        index: self.cursor,
                        url: item.url.clone(),
                        destination: path.clone(),
                    };
                    self.phase = Phase::Fetching { destination: path };
                    Action::Launch(request)
                } else {
                    self.phase = Phase::Finished;
                    Action::Finish
                }
            },
            (Phase::Fetching { .. }, Event::Line(line)) => {
                Action::Relay(progress_group(self.id, line.as_str()))
            },
            (Phase::Fetching { destination }, Event::Exited { success }) => {
                let result = FetchResult {
                    worker: self.id,
                    index: self.cursor,
                    destination: destination.clone(),
                    success,
                };
                *self = Worker {
                    id: self.id,
                    range: self.range,
                    cursor: self.cursor + 1,
                    phase: Phase::Idle,
                };
                Action::Report(result)
            },
            (Phase::Fetching { .. }, Event::SpawnFailed) => {
                self.phase = Phase::Aborted;
                Action::Abort
            },
            (Phase::Finished, Event::Ready) => Action::Finish,
            (Phase::Aborted, Event::Ready) => Action::Abort,
            _ => Action::Ignore,
        }
    }
}

/// The mathematical form of a list of workers.
pub open spec fn workers_view(workers: Seq<Worker>) -> Seq<WorkerView> {
    Seq::new(workers.len(), |i: int| workers[i]@)
}

/// The workers that a plan calls for: one for each range that is not empty,
/// known by the index of its range, in the order of the ranges.
pub open spec fn workers_of(spans: Seq<Span>) -> Seq<WorkerView>
    decreases spans.len(),
{
    if spans.len() == 0 {
        Seq::empty()
    } else {
        let before = workers_of(spans.drop_last());
        let i = spans.len() - 1;
        if spans[i].len() > 0 {
            before.push(WorkerView::fresh(i as nat, spans[i]))
        } else {
            before
        }
    }
}

/// Makes the workers that `plan` calls for.
pub fn workers_for(plan: &PartitionPlan) -> (workers: Vec<Worker>)
    ensures
        workers_view(workers@) == workers_of(plan@),
{
    let mut workers: Vec<Worker> = Vec::new();
    let count = plan.worker_count();
    let mut i: usize = 0;
    while i < count
        invariant
            i <= count,
            count == plan@.len(),
            workers_view(workers@) == workers_of(plan@.take(i as int)),
        decreases count - i,
    {
        assert(plan@.take(i + 1).drop_last() == plan@.take(i as int));
        match plan.range(i) {
            Some(range) => {
                if !range.is_empty() {
                    let worker = Worker::new(i, range);
                    workers.push(worker);
                }
            },
            None => {},
        }
        i += 1;
    }
    assert(plan@.take(count as int) == plan@);
    workers
}

/// The state of a worker that started in state `w` and was told, for each
/// outcome in `outcomes` in turn, first `Ready` and then `Exited` with that
/// outcome.
pub open spec fn served(
    w: WorkerView,
    list: Seq<WorkItemView>,
    subject: Seq<char>,
    style: PathStyle,
    outcomes: Seq<bool>,
) -> WorkerView
    decreases outcomes.len(),
{
    if outcomes.len() == 0 {
        w
    } else {
        let before = served(w, list, subject, style, outcomes.drop_last());
        let launched = transition(before, list, subject, style, EventView::Ready).0;
        transition(
            launched,
            list,
            subject,
            style,
            EventView::Exited { success: outcomes.last() },
        ).0
    }
}

/// An idle worker that is served as many outcomes as it has items ahead of
/// it stands idle again, that many items further on.
proof fn lemma_served_state(
    w: WorkerView,
    list: Seq<WorkItemView>,
    subject: Seq<char>,
    style: PathStyle,
    outcomes: Seq<bool>,
)
    requires
        w.phase is Idle,
        0 <= w.cursor,
        w.cursor + outcomes.len() <= w.range.end,
        w.cursor + outcomes.len() <= list.len(),
    ensures
        served(w, list, subject, style, outcomes) == (WorkerView {
            cursor: w.cursor + outcomes.len(),
            ..w
        }),
    decreases outcomes.len(),
{
    if outcomes.len() > 0 {
        lemma_served_state(w, list, subject, style, outcomes.drop_last());
    }
}

/// A worker walks its range in rising order and lets no failure stop it.
/// Let an idle worker have at least `outcomes.len()` items ahead of it, in
/// its range and in the list, and let it be told `Ready` and `Exited` in
/// turn, once for each outcome. Then its `k`-th answer to `Ready` orders the
/// `k`-th item ahead of it, its `k`-th answer to `Exited` reports that item
/// with the outcome it was told, success or failure, and in the end it
/// stands idle behind the last of these items.
pub proof fn lemma_worker_walks_range(
    w: WorkerView,
    list: Seq<WorkItemView>,
    subject: Seq<char>,
    style: PathStyle,
    outcomes: Seq<bool>,
)
    requires
        w.phase is Idle,
        0 <= w.cursor,
        w.cursor + outcomes.len() <= w.range.end,
        w.cursor + outcomes.len() <= list.len(),
    ensures
        served(w, list, subject, style, outcomes) == (WorkerView {
            cursor: w.cursor + outcomes.len(),
            ..w
        }),
        forall|k: int|
            0 <= k < outcomes.len() ==> ({
                let before = served(w, list, subject, style, #[trigger] outcomes.take(k));
                let request = request_for(list, subject, style, w.cursor + k);
                let launch = transition(before, list, subject, style, EventView::Ready);
                let exit = transition(
                    launch.0,
                    list,
                    subject,
                    style,
                    EventView::Exited { success: outcomes[k] },
                );
                &&& launch.1 == ActionView::Launch(request)
                &&& exit.1 == ActionView::Report(
                    FetchResultView {
                        worker: w.id,
                        index: w.cursor + k,
                        destination: request.destination,
                        success: outcomes[k],
                    },
                )
            }),
{
    lemma_served_state(w, list, subject, style, outcomes);
    assert forall|k: int| 0 <= k < outcomes.len() implies {
        let before = served(w, list, subject, style, #[trigger] outcomes.take(k));
        let request = request_for(list, subject, style, w.cursor + k);
        let launch = transition(before, list, subject, style, EventView::Ready);
        let exit = transition(
            launch.0,
            list,
            subject,
            style,
            EventView::Exited { success: outcomes[k] },
        );
        &&& launch.1 == ActionView::Launch(request)
        &&& exit.1 == ActionView::Report(
            FetchResultView {
                worker: w.id,
                index: w.cursor + k,
                destination: request.destination,
                success: outcomes[k],
            },
        )
    } by {
        lemma_served_state(w, list, subject, style, outcomes.take(k));
    }
}

/// The workers that a plan calls for are fresh, stand in the order of their
/// ranges, and are exactly those whose range is not empty.
pub proof fn lemma_workers_of(spans: Seq<Span>)
    ensures
        workers_of(spans).len() <= spans.len(),
        forall|k: int|
            0 <= k < workers_of(spans).len() ==> ({
                let w = #[trigger] workers_of(spans)[k];
                &&& k <= w.id < spans.len()
                &&& spans[w.id as int].len() > 0
                &&& w == WorkerView::fresh(w.id, spans[w.id as int])
            }),
        forall|k: int, l: int|
            0 <= k < l < workers_of(spans).len() ==> (#[trigger] workers_of(spans)[k]).id < (
            #[trigger] workers_of(spans)[l]).id,
        forall|i: int|
            0 <= i < spans.len() && (#[trigger] spans[i]).len() > 0 ==> exists|k: int|
                0 <= k < workers_of(spans).len() && (#[trigger] workers_of(spans)[k]).id == i,
    decreases spans.len(),
{
    if spans.len() > 0 {
        let front = spans.drop_last();
        let last = spans.len() - 1;
        lemma_workers_of(front);
        assert forall|i: int| 0 <= i < spans.len() && (#[trigger] spans[i]).len() > 0 implies exists|
            k: int,
        |
            0 <= k < workers_of(spans).len() && (#[trigger] workers_of(spans)[k]).id == i by {
            if i < last {
                assert(front[i].len() > 0);
                let k = choose|k: int|
                    0 <= k < workers_of(front).len() && (#[trigger] workers_of(front)[k]).id == i;
                assert(workers_of(spans)[k].id == i);
            } else {
                assert(workers_of(spans)[workers_of(spans).len() - 1].id == i);
            }
        }
    }
}

/// Every item of the list falls to exactly one of the workers that its plan
/// calls for: the owner of an index is among the workers and holds the
/// index in its range, and no two workers share an index.
pub proof fn lemma_every_item_has_one_worker(item_count: nat, max_workers: nat)
    requires
        max_workers >= 1,
    ensures
        ({
            let workers = workers_of(planned_spans(item_count, max_workers));
            &&& forall|j: int|
                0 <= j < item_count ==> exists|k: int|
                    0 <= k < workers.len() && (#[trigger] workers[k]).id == #[trigger] owner(
                        item_count,
                        max_workers,
                        j,
                    ) && workers[k].range.contains(j)
            &&& forall|k: int, l: int, j: int|
                0 <= k < workers.len() && 0 <= l < workers.len() && k != l ==> !(
                #[trigger] workers[k].range.contains(j) && #[trigger] workers[l].range.contains(
                    j,
                ))
        }),
{
    let spans = planned_spans(item_count, max_workers);
    let workers = workers_of(spans);
    lemma_ranges_partition(item_count, max_workers);
    lemma_workers_of(spans);
    assert forall|j: int| 0 <= j < item_count implies exists|k: int|
        0 <= k < workers.len() && (#[trigger] workers[k]).id == #[trigger] owner(
            item_count,
            max_workers,
            j,
        ) && workers[k].range.contains(j) by {
        // The owner's range holds `j`, so it is not empty and has a worker.
        let i = owner(item_count, max_workers, j);
        let k = choose|k: int| 0 <= k < workers.len() && (#[trigger] workers[k]).id == i;
        assert(workers[k].range == spans[i]);
    }
}

/// An empty list calls for no worker, whatever the worker limit.
pub proof fn lemma_empty_list_has_no_workers(max_workers: nat)
    ensures
        workers_of(planned_spans(0, max_workers)) == Seq::<WorkerView>::empty(),
{
}

} // verus!
