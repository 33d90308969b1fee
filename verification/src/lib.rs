//! The decision core of a fixed-size worker pool.
//!
//! A pool is a bounded set of long-lived workers that take jobs from one
//! shared queue and run them to completion. This crate holds everything such
//! a pool decides, and nothing that needs an operating system: the queue and
//! its closed state, the state machine of a worker's loop, and the pool's
//! lifecycle from construction to shutdown. The embedding program supplies
//! the threads, the lock around the queue and the waiting.
//!
//! Every function is verified against a mathematical model of its data:
//! [`queue::QueueState`] for the queue and [`pool::PoolState`] for the pool.
//! [`history`] follows those models through whole runs and proves what the
//! pool promises: a job that was accepted is handed to exactly one worker,
//! and a job that was rejected to none.

pub mod history;
pub mod pool;
pub mod queue;
pub mod worker;
