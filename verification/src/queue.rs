//! The render queue: a bounded FIFO admission buffer and the single
//! worker that drains it. The worker is written as a state machine from
//! phase and event to next phase and action; its surroundings perform
//! each action — fetching parameters, recording state, spawning the
//! engine — and feed the outcome back as the next event.

use vstd::prelude::*;
use crate::CommandType;
use crate::CommandTypeView;
use crate::spec_command_job;
use crate::shader::{KaleidoArgs, KaleidoArgsView};

verus! {

/// Spec-level image of a RenderQueueRequest.
pub enum RenderQueueRequestView {
    RandomAnimated,
    ParameterizedAnimated(Seq<char>),
    ParameterizedStill(Seq<char>),
}

/// One unit of work a client may enqueue.
pub enum RenderQueueRequest {
    /// Render an animation from freshly generated parameters.
    RandomAnimated,
    /// Render an animation from the persisted parameters of the given job.
    ParameterizedAnimated(String),
    /// Render a still image from the persisted parameters of the given job.
    ParameterizedStill(String),
}

impl View for RenderQueueRequest {
    type V = RenderQueueRequestView;

    open spec fn view(&self) -> RenderQueueRequestView {
        match self {
            RenderQueueRequest::RandomAnimated => RenderQueueRequestView::RandomAnimated,
            RenderQueueRequest::ParameterizedAnimated(id) => {
                RenderQueueRequestView::ParameterizedAnimated(id@)
            },
            RenderQueueRequest::ParameterizedStill(id) => {
                RenderQueueRequestView::ParameterizedStill(id@)
            },
        }
    }
}

/// Why a request was not admitted.
#[derive(Debug)]
pub enum RenderQueueError {
    /// The queue is closed or its pending slots are exhausted; the
    /// request is dropped, and the caller logs and carries on.
    QueuePushError,
}

/// Spec-level image of a RenderQueue.
pub struct RenderQueueView {
    pub pending: Seq<RenderQueueRequestView>,
    pub capacity: nat,
    pub closed: bool,
}

/// The admission side of the queue: a bounded buffer of pending
/// requests, drained in submission order by exactly one worker.
pub struct RenderQueue {
    pending: Vec<RenderQueueRequest>,
    capacity: usize,
    closed: bool,
}

impl View for RenderQueue {
    type V = RenderQueueView;

    closed spec fn view(&self) -> RenderQueueView {
        RenderQueueView {
            pending: self.pending@.map_values(|r: RenderQueueRequest| r@),
            capacity: self.capacity as nat,
            closed: self.closed,
        }
    }
}

impl RenderQueue {
    /// An open queue buffering at most `capacity` pending requests.
    pub fn new(capacity: usize) -> (r: Self)
        ensures
            r@.pending == Seq::<RenderQueueRequestView>::empty(),
            r@.capacity == capacity as nat,
            !r@.closed,
    {
        let q = RenderQueue { pending: Vec::new(), capacity, closed: false };
        proof {
            assert(q@.pending =~= Seq::<RenderQueueRequestView>::empty());
        }
        q
    }

    /// Admits a request, without blocking: it joins the back of the
    /// buffer exactly when the queue is open and a slot is free;
    /// otherwise the queue is unchanged and the push fails. A failed
    /// push is never retried by the queue.
    pub fn push(&mut self, request: RenderQueueRequest) -> (r: Result<(), RenderQueueError>)
        ensures
            old(self)@.closed || old(self)@.pending.len() >= old(self)@.capacity ==> (r matches Err(
                e,
            ) && e is QueuePushError && final(self)@ == old(self)@),
            !old(self)@.closed && old(self)@.pending.len() < old(self)@.capacity ==> (r is Ok
                && final(self)@.pending == old(self)@.pending.push(request@) && final(self)@.capacity
                == old(self)@.capacity && final(self)@.closed == old(self)@.closed),
    {
        if self.closed || self.pending.len() >= self.capacity {
            return Err(RenderQueueError::QueuePushError);
        }
        self.pending.push(request);
        proof {
            assert(self@.pending =~= old(self)@.pending.push(request@));
        }
        Ok(())
    }

    /// Hands the worker the oldest pending request, in strict submission
    /// order; `None` when nothing is pending.
    pub fn pop_next(&mut self) -> (r: Option<RenderQueueRequest>)
        ensures
            old(self)@.pending.len() == 0 ==> (r is None && final(self)@ == old(self)@),
            old(self)@.pending.len() > 0 ==> (r matches Some(q) && q@ == old(self)@.pending[0]
                && final(self)@.pending == old(self)@.pending.drop_first() && final(self)@.capacity
                == old(self)@.capacity && final(self)@.closed == old(self)@.closed),
    {
        if self.pending.len() == 0 {
            return None;
        }
        let q = self.pending.remove(0);
        proof {
            assert(self@.pending =~= old(self)@.pending.drop_first());
        }
        Some(q)
    }

    /// Marks the producer side gone; nothing further is admitted, and
    /// once drained the worker stops for good.
    pub fn close(&mut self)
        ensures
            final(self)@.closed,
            final(self)@.pending == old(self)@.pending,
            final(self)@.capacity == old(self)@.capacity,
    {
        self.closed = true;
    }
}

/// Spec-level image of a WorkerPhase.
pub enum WorkerPhaseView {
    Idle,
    Generating,
    Fetching(Seq<char>, bool),
    Starting(KaleidoArgsView, bool),
    Rendering(Seq<char>),
    Stopped,
}

/// Where the worker stands between two events. At most one job is ever
/// past `Idle`, and a subprocess exists exactly in `Rendering`.
pub enum WorkerPhase {
    /// Ready for the next request.
    Idle,
    /// Fresh parameters are being generated and registered.
    Generating,
    /// Persisted parameters are being fetched for the named job; the
    /// flag asks for a still rather than an animation.
    Fetching(String, bool),
    /// Parameters are in hand; the job is being marked Waiting.
    Starting(KaleidoArgs, bool),
    /// The engine is running for the named job.
    Rendering(String),
    /// The producer side closed; the worker has terminated for good.
    Stopped,
}

impl View for WorkerPhase {
    type V = WorkerPhaseView;

    open spec fn view(&self) -> WorkerPhaseView {
        match self {
            WorkerPhase::Idle => WorkerPhaseView::Idle,
            WorkerPhase::Generating => WorkerPhaseView::Generating,
            WorkerPhase::Fetching(id, still) => WorkerPhaseView::Fetching(id@, *still),
            WorkerPhase::Starting(job, still) => WorkerPhaseView::Starting(job@, *still),
            WorkerPhase::Rendering(id) => WorkerPhaseView::Rendering(id@),
            WorkerPhase::Stopped => WorkerPhaseView::Stopped,
        }
    }
}

/// Spec-level image of a WorkerEvent.
pub enum WorkerEventView {
    Request(RenderQueueRequestView),
    ParamsReady(KaleidoArgsView),
    ParamsFailed,
    WaitingMarked,
    RenderExited(bool),
    RenderStartFailed,
    Closed,
}

/// What the worker's surroundings report back to it.
pub enum WorkerEvent {
    /// The queue handed over a request.
    Request(RenderQueueRequest),
    /// Parameters were generated-and-registered, or fetched.
    ParamsReady(KaleidoArgs),
    /// Generating, registering or fetching parameters failed; the job is
    /// skipped and the worker carries on.
    ParamsFailed,
    /// The recorder was asked to mark the job Waiting; the worker
    /// proceeds whether or not that write succeeded.
    WaitingMarked,
    /// The engine exited, successfully or not.
    RenderExited(bool),
    /// The plan could not be executed: directory creation, support-file
    /// extraction or the spawn itself failed.
    RenderStartFailed,
    /// The producer side of the queue is gone.
    Closed,
}

impl View for WorkerEvent {
    type V = WorkerEventView;

    open spec fn view(&self) -> WorkerEventView {
        match self {
            WorkerEvent::Request(q) => WorkerEventView::Request(q@),
            WorkerEvent::ParamsReady(job) => WorkerEventView::ParamsReady(job@),
            WorkerEvent::ParamsFailed => WorkerEventView::ParamsFailed,
            WorkerEvent::WaitingMarked => WorkerEventView::WaitingMarked,
            WorkerEvent::RenderExited(ok) => WorkerEventView::RenderExited(*ok),
            WorkerEvent::RenderStartFailed => WorkerEventView::RenderStartFailed,
            WorkerEvent::Closed => WorkerEventView::Closed,
        }
    }
}

/// Spec-level image of a WorkerAction.
pub enum WorkerActionView {
    GenerateParams,
    FetchParams(Seq<char>),
    MarkWaiting(Seq<char>),
    StartRender(CommandTypeView),
    MarkDone(Seq<char>),
    MarkFailed(Seq<char>),
    StopWorker,
    Nothing,
}

/// What the worker asks its surroundings to do next.
pub enum WorkerAction {
    /// Generate fresh parameters and register the new job.
    GenerateParams,
    /// Fetch the persisted parameters of the named job.
    FetchParams(String),
    /// Record the named job as Waiting.
    MarkWaiting(String),
    /// Execute the given render command.
    StartRender(CommandType),
    /// Record the named job as Done.
    MarkDone(String),
    /// Record the named job as Failed.
    MarkFailed(String),
    /// Terminate the worker loop.
    StopWorker,
    /// Nothing to do.
    Nothing,
}

impl View for WorkerAction {
    type V = WorkerActionView;

    open spec fn view(&self) -> WorkerActionView {
        match self {
            WorkerAction::GenerateParams => WorkerActionView::GenerateParams,
            WorkerAction::FetchParams(id) => WorkerActionView::FetchParams(id@),
            WorkerAction::MarkWaiting(id) => WorkerActionView::MarkWaiting(id@),
            WorkerAction::StartRender(c) => WorkerActionView::StartRender(c@),
            WorkerAction::MarkDone(id) => WorkerActionView::MarkDone(id@),
            WorkerAction::MarkFailed(id) => WorkerActionView::MarkFailed(id@),
            WorkerAction::StopWorker => WorkerActionView::StopWorker,
            WorkerAction::Nothing => WorkerActionView::Nothing,
        }
    }
}

/// The render command a job's parameters call for: the job's frame
/// range, or its first frame alone for a still.
pub open spec fn spec_command_for(job: KaleidoArgsView, still: bool) -> CommandTypeView {
    if still {
        CommandTypeView::Still(job.frame_start, job)
    } else {
        CommandTypeView::Animated(job.frame_start, job.frame_end, job)
    }
}

/// The worker's transition table. An event that cannot occur in the
/// current phase changes nothing.
pub open spec fn spec_worker_step(phase: WorkerPhaseView, event: WorkerEventView) -> (
    WorkerPhaseView,
    WorkerActionView,
) {
    match (phase, event) {
        (WorkerPhaseView::Idle, WorkerEventView::Request(q)) => match q {
            RenderQueueRequestView::RandomAnimated => (
                WorkerPhaseView::Generating,
                WorkerActionView::GenerateParams,
            ),
            RenderQueueRequestView::ParameterizedAnimated(id) => (
                WorkerPhaseView::Fetching(id, false),
                WorkerActionView::FetchParams(id),
            ),
            RenderQueueRequestView::ParameterizedStill(id) => (
                WorkerPhaseView::Fetching(id, true),
                WorkerActionView::FetchParams(id),
            ),
        },
        (WorkerPhaseView::Generating, WorkerEventView::ParamsReady(job)) => (
            WorkerPhaseView::Starting(job, false),
            WorkerActionView::MarkWaiting(job.id),
        ),
        (WorkerPhaseView::Generating, WorkerEventView::ParamsFailed) => (
            WorkerPhaseView::Idle,
            WorkerActionView::Nothing,
        ),
        (WorkerPhaseView::Fetching(_, still), WorkerEventView::ParamsReady(job)) => (
            WorkerPhaseView::Starting(job, still),
            WorkerActionView::MarkWaiting(job.id),
        ),
        (WorkerPhaseView::Fetching(_, _), WorkerEventView::ParamsFailed) => (
            WorkerPhaseView::Idle,
            WorkerActionView::Nothing,
        ),
        (WorkerPhaseView::Starting(job, still), WorkerEventView::WaitingMarked) => (
            WorkerPhaseView::Rendering(job.id),
            WorkerActionView::StartRender(spec_command_for(job, still)),
        ),
        (WorkerPhaseView::Rendering(id), WorkerEventView::RenderExited(ok)) => if ok {
            (WorkerPhaseView::Idle, WorkerActionView::MarkDone(id))
        } else {
            (WorkerPhaseView::Idle, WorkerActionView::MarkFailed(id))
        },
        (WorkerPhaseView::Rendering(id), WorkerEventView::RenderStartFailed) => (
            WorkerPhaseView::Idle,
            WorkerActionView::MarkFailed(id),
        ),
        (_, WorkerEventView::Closed) => (WorkerPhaseView::Stopped, WorkerActionView::StopWorker),
        (p, _) => (p, WorkerActionView::Nothing),
    }
}

/// One turn of the worker loop.
pub fn worker_step(phase: WorkerPhase, event: WorkerEvent) -> (r: (WorkerPhase, WorkerAction))
    ensures
        (r.0@, r.1@) == spec_worker_step(phase@, event@),
{
    match (phase, event) {
        (WorkerPhase::Idle, WorkerEvent::Request(q)) => match q {
            RenderQueueRequest::RandomAnimated => (
                WorkerPhase::Generating,
                WorkerAction::GenerateParams,
            ),
            RenderQueueRequest::ParameterizedAnimated(id) => {
                let target = id.clone();
                (WorkerPhase::Fetching(id, false), WorkerAction::FetchParams(target))
            },
            RenderQueueRequest::ParameterizedStill(id) => {
                let target = id.clone();
                (WorkerPhase::Fetching(id, true), WorkerAction::FetchParams(target))
            },
        },
        (WorkerPhase::Generating, WorkerEvent::ParamsReady(job)) => {
            let id = job.get_id();
            (WorkerPhase::Starting(job, false), WorkerAction::MarkWaiting(id))
        },
        (WorkerPhase::Generating, WorkerEvent::ParamsFailed) => (
            WorkerPhase::Idle,
            WorkerAction::Nothing,
        ),
        (WorkerPhase::Fetching(_, still), WorkerEvent::ParamsReady(job)) => {
            let id = job.get_id();
            (WorkerPhase::Starting(job, still), WorkerAction::MarkWaiting(id))
        },
        (WorkerPhase::Fetching(_, _), WorkerEvent::ParamsFailed) => (
            WorkerPhase::Idle,
            WorkerAction::Nothing,
        ),
        (WorkerPhase::Starting(job, still), WorkerEvent::WaitingMarked) => {
            let id = job.get_id();
            let start = job.get_start_frame() as usize;
            let end = job.get_end_frame() as usize;
            let command = if still {
                CommandType::Still(start, job)
            } else {
                CommandType::Animated(start, end, job)
            };
            (WorkerPhase::Rendering(id), WorkerAction::StartRender(command))
        },
        (WorkerPhase::Rendering(id), WorkerEvent::RenderExited(ok)) => {
            if ok {
                (WorkerPhase::Idle, WorkerAction::MarkDone(id))
            } else {
                (WorkerPhase::Idle, WorkerAction::MarkFailed(id))
            }
        },
        (WorkerPhase::Rendering(id), WorkerEvent::RenderStartFailed) => (
            WorkerPhase::Idle,
            WorkerAction::MarkFailed(id),
        ),
        (_, WorkerEvent::Closed) => (WorkerPhase::Stopped, WorkerAction::StopWorker),
        (p, _) => (p, WorkerAction::Nothing),
    }
}

/// The worker's phase after a trace of events, starting idle.
pub open spec fn spec_worker_run(events: Seq<WorkerEventView>) -> WorkerPhaseView
    decreases events.len(),
{
    if events.len() == 0 {
        WorkerPhaseView::Idle
    } else {
        spec_worker_step(spec_worker_run(events.drop_last()), events.last()).0
    }
}

/// How many renders a trace of events has started.
pub open spec fn spec_renders_started(events: Seq<WorkerEventView>) -> nat
    decreases events.len(),
{
    if events.len() == 0 {
        0
    } else {
        spec_renders_started(events.drop_last()) + if spec_worker_step(
            spec_worker_run(events.drop_last()),
            events.last(),
        ).1 is StartRender {
            1nat
        } else {
            0nat
        }
    }
}

/// How many renders a trace of events has seen terminate.
pub open spec fn spec_renders_settled(events: Seq<WorkerEventView>) -> nat
    decreases events.len(),
{
    if events.len() == 0 {
        0
    } else {
        spec_renders_settled(events.drop_last()) + if spec_worker_run(
            events.drop_last(),
        ) is Rendering && !(spec_worker_step(
            spec_worker_run(events.drop_last()),
            events.last(),
        ).0 is Rendering) {
            1nat
        } else {
            0nat
        }
    }
}

/// A render starts only from the phase that has just marked its job
/// Waiting, and never while another render is active.
pub proof fn lemma_start_requires_starting_phase(phase: WorkerPhaseView, event: WorkerEventView)
    ensures
        spec_worker_step(phase, event).1 is StartRender ==> phase is Starting
            && spec_worker_step(phase, event).0 is Rendering,
        phase is Rendering ==> !(spec_worker_step(phase, event).1 is StartRender),
        spec_worker_step(phase, event).0 is Rendering ==> (phase is Rendering || spec_worker_step(
            phase,
            event,
        ).1 is StartRender),
{
}

/// The actions the worker emits over a trace of events, one per event.
pub open spec fn spec_worker_actions(events: Seq<WorkerEventView>) -> Seq<WorkerActionView>
    decreases events.len(),
{
    if events.len() == 0 {
        Seq::empty()
    } else {
        spec_worker_actions(events.drop_last()).push(
            spec_worker_step(spec_worker_run(events.drop_last()), events.last()).1,
        )
    }
}

/// The phase that has parameters in hand is only entered by emitting
/// MarkWaiting for that job, and StartRender carries that same job.
pub proof fn lemma_starting_entered_by_mark_waiting(
    phase: WorkerPhaseView,
    event: WorkerEventView,
)
    ensures
        spec_worker_step(phase, event).0 matches WorkerPhaseView::Starting(job, still) ==> (phase
            == WorkerPhaseView::Starting(job, still) || spec_worker_step(phase, event).1
            == WorkerActionView::MarkWaiting(job.id)),
        spec_worker_step(phase, event).1 matches WorkerActionView::StartRender(cmd) ==> (
        phase matches WorkerPhaseView::Starting(job, still) && cmd == spec_command_for(job, still)
            && spec_command_job(cmd) == job),
{
}

/// A job is marked Waiting before its subprocess is spawned: whenever
/// the worker asks for a render to start, an earlier action of the same
/// trace asked for that job to be marked Waiting.
pub proof fn lemma_waiting_recorded_before_start(events: Seq<WorkerEventView>)
    ensures
        spec_worker_actions(events).len() == events.len(),
        spec_worker_run(events) matches WorkerPhaseView::Starting(job, still) ==> exists|j: int|
            0 <= j < events.len() && spec_worker_actions(events)[j]
                == WorkerActionView::MarkWaiting(job.id),
        forall|i: int|
            0 <= i < events.len() ==> (#[trigger] spec_worker_actions(
                events,
            )[i] matches WorkerActionView::StartRender(cmd) ==> exists|j: int|
                0 <= j < i && spec_worker_actions(events)[j] == WorkerActionView::MarkWaiting(
                    spec_command_job(cmd).id,
                )),
    decreases events.len(),
{
    if events.len() > 0 {
        let dl = events.drop_last();
        lemma_waiting_recorded_before_start(dl);
        let acts = spec_worker_actions(events);
        let prev = spec_worker_actions(dl);
        let phase = spec_worker_run(dl);
        let last_action = spec_worker_step(phase, events.last()).1;
        lemma_starting_entered_by_mark_waiting(phase, events.last());
        assert(forall|i: int| 0 <= i < dl.len() ==> acts[i] == prev[i]);
        assert(acts[events.len() - 1] == last_action);
        match spec_worker_run(events) {
            WorkerPhaseView::Starting(job, still) => {
                if phase == WorkerPhaseView::Starting(job, still) {
                    let j = choose|j: int|
                        0 <= j < dl.len() && prev[j] == WorkerActionView::MarkWaiting(job.id);
                    assert(acts[j] == WorkerActionView::MarkWaiting(job.id));
                } else {
                    assert(acts[events.len() - 1] == WorkerActionView::MarkWaiting(job.id));
                }
            },
            _ => {},
        }
        assert forall|i: int|
            0 <= i < events.len() && #[trigger] spec_worker_actions(
                events,
            )[i] is StartRender implies exists|j: int|
            0 <= j < i && spec_worker_actions(events)[j] == WorkerActionView::MarkWaiting(
                spec_command_job(spec_worker_actions(events)[i]->StartRender_0).id,
            ) by {
            let cmd = acts[i]->StartRender_0;
            if i < dl.len() {
                assert(prev[i] is StartRender && prev[i]->StartRender_0 == cmd);
                let j = choose|j: int|
                    0 <= j < i && prev[j] == WorkerActionView::MarkWaiting(
                        spec_command_job(cmd).id,
                    );
                assert(acts[j] == WorkerActionView::MarkWaiting(spec_command_job(cmd).id));
            } else {
                let job = phase->Starting_0;
                let j = choose|j: int|
                    0 <= j < dl.len() && prev[j] == WorkerActionView::MarkWaiting(job.id);
                assert(acts[j] == WorkerActionView::MarkWaiting(spec_command_job(cmd).id));
            }
        }
    }
}

/// Execution is serialized: over any trace of events, at most one
/// render is ever active — the number started never exceeds the number
/// terminated by more than one, and exceeds it exactly while the worker
/// is in its rendering phase.
pub proof fn lemma_at_most_one_render_active(events: Seq<WorkerEventView>)
    ensures
        spec_renders_started(events) == spec_renders_settled(events) + (
        if spec_worker_run(events) is Rendering {
            1nat
        } else {
            0nat
        }),
        spec_renders_settled(events) <= spec_renders_started(events) <= spec_renders_settled(events)
            + 1,
    decreases events.len(),
{
    if events.len() > 0 {
        lemma_at_most_one_render_active(events.drop_last());
        lemma_start_requires_starting_phase(spec_worker_run(events.drop_last()), events.last());
    }
}

} // verus!
