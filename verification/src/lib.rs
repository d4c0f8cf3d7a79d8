//! Event-driven user-interface plumbing as verified state machines: a
//! pollable impulse (unit-event) stream, and a cooperative single-task
//! executor that bridges pollable computations to a foreign event loop's
//! idle-callback scheduling primitive.

pub mod executor;
pub mod impulse;
