//! End-to-end scenarios for the queue, the worker state machine and the
//! status relay.

use tarascope::CommandType;
use tarascope::progress::relay_step;
use tarascope::queue::{
    RenderQueue, RenderQueueError, RenderQueueRequest, WorkerAction, WorkerEvent, WorkerPhase,
    worker_step,
};
use tarascope::shader::{FrameArgs, KaleidoArgs};

fn job(id: &str, start: u16, end: u16) -> KaleidoArgs {
    let params = format!(
        "{{\"id\":\"{}\",\"frames\":{{\"_frames_start\":{},\"_frames_max\":{}}}}}",
        id, start, end
    );
    KaleidoArgs::new(
        String::from(id),
        FrameArgs {
            frame_start: start,
            frame_end: end,
        },
        params,
    )
}

#[test]
fn random_job_runs_to_done_with_frames_in_order() {
    // A RandomAnimated request: parameters are generated, the job is
    // marked Waiting before any render starts, ten frames arrive in
    // order, and the job ends Done.
    let (phase, action) = worker_step(
        WorkerPhase::Idle,
        WorkerEvent::Request(RenderQueueRequest::RandomAnimated),
    );
    assert!(matches!(action, WorkerAction::GenerateParams));
    assert!(matches!(phase, WorkerPhase::Generating));

    let (phase, action) = worker_step(phase, WorkerEvent::ParamsReady(job("j1", 1, 10)));
    let waiting_id = match &action {
        WorkerAction::MarkWaiting(id) => id.clone(),
        other => panic!("expected MarkWaiting, got {:?}", discriminant_name(other)),
    };
    assert_eq!(waiting_id, "j1");
    assert!(matches!(phase, WorkerPhase::Starting(_, _)));

    // Only after Waiting is recorded does the render start.
    let (phase, action) = worker_step(phase, WorkerEvent::WaitingMarked);
    match &action {
        WorkerAction::StartRender(CommandType::Animated(start, end, j)) => {
            assert_eq!(*start, 1);
            assert_eq!(*end, 10);
            assert_eq!(j.get_id(), "j1");
        }
        other => panic!("expected StartRender, got {:?}", discriminant_name(other)),
    }
    assert!(matches!(phase, WorkerPhase::Rendering(_)));

    // The stub engine emits ten progress lines; each is relayed, in order.
    let mut frames = Vec::new();
    for f in 1..=10 {
        let line = format!("{{\"id\":\"j1\",\"frame\":{}}}", f);
        let msg = relay_step(&line).expect("well-formed line must relay");
        assert_eq!(msg.id, "j1");
        frames.push(msg.frame);
    }
    assert_eq!(frames, vec![1, 2, 3, 4, 5, 6, 7, 8, 9, 10]);

    // Exit 0: the job is marked Done and the worker is idle again.
    let (phase, action) = worker_step(phase, WorkerEvent::RenderExited(true));
    match &action {
        WorkerAction::MarkDone(id) => assert_eq!(id, "j1"),
        other => panic!("expected MarkDone, got {:?}", discriminant_name(other)),
    }
    assert!(matches!(phase, WorkerPhase::Idle));
}

#[test]
fn failed_fetch_skips_job_and_worker_continues() {
    // ParameterizedAnimated("X") whose parameter fetch fails: the job is
    // skipped and the next request is processed normally.
    let (phase, action) = worker_step(
        WorkerPhase::Idle,
        WorkerEvent::Request(RenderQueueRequest::ParameterizedAnimated(String::from("X"))),
    );
    match &action {
        WorkerAction::FetchParams(id) => assert_eq!(id, "X"),
        other => panic!("expected FetchParams, got {:?}", discriminant_name(other)),
    }
    assert!(matches!(phase, WorkerPhase::Fetching(_, _)));

    let (phase, action) = worker_step(phase, WorkerEvent::ParamsFailed);
    assert!(matches!(action, WorkerAction::Nothing));
    assert!(matches!(phase, WorkerPhase::Idle));

    // The worker is alive and takes the next queued request.
    let (phase, action) = worker_step(
        phase,
        WorkerEvent::Request(RenderQueueRequest::ParameterizedAnimated(String::from("Y"))),
    );
    match &action {
        WorkerAction::FetchParams(id) => assert_eq!(id, "Y"),
        other => panic!("expected FetchParams, got {:?}", discriminant_name(other)),
    }
    assert!(matches!(phase, WorkerPhase::Fetching(_, _)));
}

#[test]
fn push_fails_when_capacity_exhausted() {
    // One pending slot: while the worker is busy the first push is
    // buffered and the second returns a push error, not a silent retry.
    let mut queue = RenderQueue::new(1);
    assert!(queue.push(RenderQueueRequest::RandomAnimated).is_ok());
    let second = queue.push(RenderQueueRequest::ParameterizedAnimated(String::from("X")));
    assert!(matches!(second, Err(RenderQueueError::QueuePushError)));

    // The buffered request is untouched and drains in order.
    match queue.pop_next() {
        Some(RenderQueueRequest::RandomAnimated) => {}
        _ => panic!("expected the buffered RandomAnimated request"),
    }
    assert!(queue.pop_next().is_none());
}

#[test]
fn push_fails_on_closed_queue() {
    let mut queue = RenderQueue::new(4);
    assert!(queue.push(RenderQueueRequest::RandomAnimated).is_ok());
    queue.close();
    let r = queue.push(RenderQueueRequest::RandomAnimated);
    assert!(matches!(r, Err(RenderQueueError::QueuePushError)));
    // What was admitted before the close still drains.
    assert!(queue.pop_next().is_some());
    assert!(queue.pop_next().is_none());
}

#[test]
fn queue_is_fifo() {
    let mut queue = RenderQueue::new(3);
    queue
        .push(RenderQueueRequest::ParameterizedAnimated(String::from("a")))
        .unwrap();
    queue
        .push(RenderQueueRequest::ParameterizedStill(String::from("b")))
        .unwrap();
    queue.push(RenderQueueRequest::RandomAnimated).unwrap();
    match queue.pop_next() {
        Some(RenderQueueRequest::ParameterizedAnimated(id)) => assert_eq!(id, "a"),
        _ => panic!("expected first request"),
    }
    match queue.pop_next() {
        Some(RenderQueueRequest::ParameterizedStill(id)) => assert_eq!(id, "b"),
        _ => panic!("expected second request"),
    }
    match queue.pop_next() {
        Some(RenderQueueRequest::RandomAnimated) => {}
        _ => panic!("expected third request"),
    }
    assert!(queue.pop_next().is_none());
}

#[test]
fn still_request_renders_one_frame() {
    let (phase, _) = worker_step(
        WorkerPhase::Idle,
        WorkerEvent::Request(RenderQueueRequest::ParameterizedStill(String::from("s1"))),
    );
    let (phase, _) = worker_step(phase, WorkerEvent::ParamsReady(job("s1", 7, 300)));
    let (_, action) = worker_step(phase, WorkerEvent::WaitingMarked);
    match &action {
        WorkerAction::StartRender(CommandType::Still(frame, j)) => {
            assert_eq!(*frame, 7);
            assert_eq!(j.get_id(), "s1");
        }
        other => panic!("expected a Still render, got {:?}", discriminant_name(other)),
    }
}

#[test]
fn failed_exit_marks_job_failed() {
    let (phase, _) = worker_step(
        WorkerPhase::Idle,
        WorkerEvent::Request(RenderQueueRequest::RandomAnimated),
    );
    let (phase, _) = worker_step(phase, WorkerEvent::ParamsReady(job("j2", 1, 300)));
    let (phase, _) = worker_step(phase, WorkerEvent::WaitingMarked);
    let (phase, action) = worker_step(phase, WorkerEvent::RenderExited(false));
    match &action {
        WorkerAction::MarkFailed(id) => assert_eq!(id, "j2"),
        other => panic!("expected MarkFailed, got {:?}", discriminant_name(other)),
    }
    assert!(matches!(phase, WorkerPhase::Idle));
}

#[test]
fn spawn_failure_marks_job_failed() {
    let (phase, _) = worker_step(
        WorkerPhase::Idle,
        WorkerEvent::Request(RenderQueueRequest::RandomAnimated),
    );
    let (phase, _) = worker_step(phase, WorkerEvent::ParamsReady(job("j3", 1, 300)));
    let (phase, _) = worker_step(phase, WorkerEvent::WaitingMarked);
    let (phase, action) = worker_step(phase, WorkerEvent::RenderStartFailed);
    match &action {
        WorkerAction::MarkFailed(id) => assert_eq!(id, "j3"),
        other => panic!("expected MarkFailed, got {:?}", discriminant_name(other)),
    }
    assert!(matches!(phase, WorkerPhase::Idle));
}

#[test]
fn close_event_stops_worker() {
    let (phase, action) = worker_step(WorkerPhase::Idle, WorkerEvent::Closed);
    assert!(matches!(action, WorkerAction::StopWorker));
    assert!(matches!(phase, WorkerPhase::Stopped));
}

fn discriminant_name(action: &WorkerAction) -> &'static str {
    match action {
        WorkerAction::GenerateParams => "GenerateParams",
        WorkerAction::FetchParams(_) => "FetchParams",
        WorkerAction::MarkWaiting(_) => "MarkWaiting",
        WorkerAction::StartRender(_) => "StartRender",
        WorkerAction::MarkDone(_) => "MarkDone",
        WorkerAction::MarkFailed(_) => "MarkFailed",
        WorkerAction::StopWorker => "StopWorker",
        WorkerAction::Nothing => "Nothing",
    }
}
