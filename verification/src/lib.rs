//! Watch a set of files and re-run a configured shell command whenever a
//! relevant change occurs.
//!
//! This library holds the decision logic of the watch -> filter -> debounce ->
//! execute pipeline: classifying paths against the built-in ignore list,
//! collecting the initial watch set, turning batches of raw change events into
//! triggers, planning watch registrations, and the orchestrator state machine
//! that serializes command runs against triggers and interrupts. All
//! filesystem access, process spawning and signal handling live outside the
//! library and hand it plain values.

pub mod executor;
pub mod filter;
pub mod orchestrator;
pub mod scanner;
pub mod watcher;
