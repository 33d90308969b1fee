use worker_pool::queue::JobQueue;
use worker_pool::worker::{Action, ExitReason, Worker, WorkerState};

#[test]
fn new_worker_is_running() {
    let state = WorkerState::new();
    assert_eq!(state, WorkerState::Running);
    assert!(state.is_running());
    assert!(!state.is_executing());
    assert!(!state.is_terminated());
}

#[test]
fn worker_runs_the_job_it_was_handed() {
    let mut queue = JobQueue::new();
    assert!(queue.send(41u32).is_ok());
    assert!(queue.send(42u32).is_ok());
    let mut state = WorkerState::new();
    match state.poll(&mut queue) {
        Action::Run(job) => assert_eq!(job, 41),
        _ => panic!("the worker did not take the waiting job"),
    }
    assert_eq!(state, WorkerState::Executing);
    assert!(state.is_executing());
    assert_eq!(queue.len(), 1);
    state.finish();
    assert_eq!(state, WorkerState::Running);
    match state.poll(&mut queue) {
        Action::Run(job) => assert_eq!(job, 42),
        _ => panic!("the worker did not take the waiting job"),
    }
}

#[test]
fn worker_waits_while_the_queue_is_open_and_empty() {
    let mut queue: JobQueue<u32> = JobQueue::new();
    let mut state = WorkerState::new();
    assert!(matches!(state.poll(&mut queue), Action::Wait));
    assert_eq!(state, WorkerState::Running);
    assert!(matches!(state.poll(&mut queue), Action::Wait));
    assert_eq!(state, WorkerState::Running);
}

#[test]
fn worker_leaves_when_the_queue_is_closed_and_empty() {
    let mut queue: JobQueue<u32> = JobQueue::new();
    queue.close();
    let mut state = WorkerState::new();
    assert!(matches!(state.poll(&mut queue), Action::Exit(ExitReason::QueueClosed)));
    assert_eq!(state, WorkerState::Terminated);
    assert!(state.is_terminated());
}

#[test]
fn worker_drains_a_closed_queue_before_it_leaves() {
    let mut queue = JobQueue::new();
    for n in 0u32..3 {
        assert!(queue.send(n).is_ok());
    }
    queue.close();
    let mut state = WorkerState::new();
    let mut ran = Vec::new();
    while state.is_running() {
        match state.poll(&mut queue) {
            Action::Run(job) => {
                ran.push(job);
                state.finish();
            }
            Action::Wait => panic!("a closed queue kept the worker waiting"),
            Action::Exit(reason) => assert_eq!(reason, ExitReason::QueueClosed),
        }
    }
    assert_eq!(ran, vec![0, 1, 2]);
    assert!(state.is_terminated());
}

#[test]
fn worker_terminates_when_the_queue_cannot_be_reached() {
    let mut state = WorkerState::new();
    assert_eq!(state.access_failed(), ExitReason::QueueUnavailable);
    assert_eq!(state, WorkerState::Terminated);
}

#[test]
fn worker_record_keeps_its_number_and_gives_its_thread_once() {
    let mut worker = Worker::new(4, String::from("thread-4"));
    assert_eq!(worker.id(), 4);
    assert!(worker.is_joinable());
    assert_eq!(worker.take_thread(), Some(String::from("thread-4")));
    assert_eq!(worker.id(), 4);
    assert!(!worker.is_joinable());
    assert_eq!(worker.take_thread(), None);
    assert_eq!(worker.id(), 4);
}
