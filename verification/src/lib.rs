//! A cooperative scheduler for script threads: identifiers, the exit cell, the
//! spawn and defer queues, the result map and the run-loop's decisions, each
//! with a contract that Verus proves.

pub mod thread_id;
pub mod bridge;
pub mod delay;
pub mod exit;
pub mod identifiers;
pub mod lua_thread;
pub mod ordering;
pub mod outcome;
pub mod queue;
pub mod result_map;
pub mod runtime;
