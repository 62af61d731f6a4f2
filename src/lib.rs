//! Live reload of a compiled render program: a debounced rebuild trigger, a
//! build worker that publishes into a single-slot mailbox, and a pipeline
//! manager that adopts what it finds there once per frame.

pub mod artifact;
pub mod constants;
pub mod pipeline;
pub mod slot;
pub mod trigger;
pub mod worker;
