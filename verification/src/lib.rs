//! An asynchronous compile-job engine: clients submit commands that describe
//! one compile of a versioned source file, receive an opaque job identity at
//! once, and poll that identity until the job reaches a terminal state.
//!
//! The crate holds the decision logic of the service: which submissions are
//! rejected before any process is spawned, how the paths handed to the
//! external toolchain are computed, how an exit status and the captured
//! diagnostic text become a response, and how the engine schedules a bounded
//! pool of workers over a first-in-first-out queue. The process spawning and
//! the file reads themselves live outside the crate and hand plain values in.

pub mod bytes;
pub mod engine;
pub mod executor;
pub mod text;
pub mod types;
