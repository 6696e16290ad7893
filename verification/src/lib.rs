//! Launch orchestration for a desktop launcher that starts a Windows-targeted
//! program under a compatibility layer.
//!
//! The library holds the decision logic: the behavior policy that maps a
//! user-selected launcher behavior to UI directives, the launch state machine
//! that sequences preparation steps, program start, wait and shutdown, and the
//! small pure computations around it (background image bookkeeping, dependency
//! hints). All blocking work (process spawning, file reads, the run loop)
//! stays with the caller, which drives the state machine and forwards the
//! directives it hands out.

pub mod background;
pub mod dependencies;
pub mod icons;
pub mod orchestrator;
pub mod outcome;
pub mod policy;
pub mod profile;
