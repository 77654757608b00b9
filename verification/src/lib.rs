//! Worker-pool dispatch core: a fixed set of workers draining one shared,
//! unbounded, FIFO job queue, fed by any number of producers.
//!
//! The pool itself is a state machine over plain values: submissions append
//! jobs to the queue, idle workers take the front job, and completions free
//! the worker slot. The threads, sockets and handler bodies that drive these
//! transitions live outside the library; the library proves what the
//! transitions guarantee: exactly-once delivery, FIFO order, and the
//! parallelism bound of the fixed worker set.

pub mod http;
pub mod pool;
pub mod router;
