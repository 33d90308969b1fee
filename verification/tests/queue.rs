use worker_pool::queue::{Delivery, JobQueue, SendError};

fn job(delivery: Delivery<u32>) -> Option<u32> {
    match delivery {
        Delivery::Job(job) => Some(job),
        _ => None,
    }
}

#[test]
fn new_queue_is_open_and_empty() {
    let queue: JobQueue<u32> = JobQueue::new();
    assert!(!queue.is_closed());
    assert!(queue.is_empty());
    assert_eq!(queue.len(), 0);
}

#[test]
fn jobs_come_out_in_the_order_they_went_in() {
    let mut queue = JobQueue::new();
    for n in [11u32, 22, 33] {
        assert!(queue.send(n).is_ok());
    }
    assert_eq!(queue.len(), 3);
    assert_eq!(job(queue.recv()), Some(11));
    assert_eq!(job(queue.recv()), Some(22));
    assert_eq!(queue.len(), 1);
    assert_eq!(job(queue.recv()), Some(33));
    assert!(queue.is_empty());
}

#[test]
fn open_empty_queue_tells_the_worker_to_wait() {
    let mut queue: JobQueue<u32> = JobQueue::new();
    assert!(matches!(queue.recv(), Delivery::Empty));
    assert!(matches!(queue.recv(), Delivery::Empty));
    assert!(queue.send(5).is_ok());
    assert_eq!(job(queue.recv()), Some(5));
    assert!(matches!(queue.recv(), Delivery::Empty));
}

#[test]
fn closed_queue_hands_the_job_back() {
    let mut queue = JobQueue::new();
    queue.close();
    match queue.send(String::from("late")) {
        Err(SendError(job)) => assert_eq!(job, "late"),
        Ok(()) => panic!("a closed queue accepted a job"),
    }
    assert!(queue.is_empty());
    assert!(matches!(queue.recv(), Delivery::Closed));
}

#[test]
fn closed_queue_still_delivers_what_it_holds() {
    let mut queue = JobQueue::new();
    assert!(queue.send(1u32).is_ok());
    assert!(queue.send(2u32).is_ok());
    queue.close();
    assert!(queue.is_closed());
    assert_eq!(queue.len(), 2);
    assert_eq!(job(queue.recv()), Some(1));
    assert_eq!(job(queue.recv()), Some(2));
    assert!(matches!(queue.recv(), Delivery::Closed));
    assert!(matches!(queue.recv(), Delivery::Closed));
}

#[test]
fn closing_twice_changes_nothing() {
    let mut queue = JobQueue::new();
    assert!(queue.send(9u32).is_ok());
    queue.close();
    queue.close();
    assert!(queue.is_closed());
    assert_eq!(queue.len(), 1);
    assert!(queue.send(10u32).is_err());
    assert_eq!(job(queue.recv()), Some(9));
    assert!(matches!(queue.recv(), Delivery::Closed));
}

#[test]
fn every_accepted_job_is_delivered_exactly_once() {
    let mut queue = JobQueue::new();
    let mut accepted = Vec::new();
    let mut delivered = Vec::new();
    for n in 0u32..50 {
        if n == 40 {
            queue.close();
        }
        if queue.send(n).is_ok() {
            accepted.push(n);
        }
        if n % 3 == 0 {
            if let Delivery::Job(job) = queue.recv() {
                delivered.push(job);
            }
        }
    }
    loop {
        match queue.recv() {
            Delivery::Job(job) => delivered.push(job),
            Delivery::Closed => break,
            Delivery::Empty => panic!("a closed queue asked the worker to wait"),
        }
    }
    assert_eq!(accepted, (0u32..40).collect::<Vec<u32>>());
    assert_eq!(delivered, accepted);
}
