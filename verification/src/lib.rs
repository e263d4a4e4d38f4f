//! Resource-lifecycle reconciliation core for a rack-scale control plane.
//!
//! The crate drives long-lived resources (compute instances, replacement
//! workflows) from an observed current state toward a requested target state.
//! It contains two cooperating state machines:
//!
//! * a reconciliation state machine that, given a resource's current runtime
//!   state and a requested target, computes the next state and the
//!   side-effecting action (if any) needed to make progress;
//! * a durable step state machine that advances crash-recoverable workflow
//!   step records through a fixed forward ordering under an exclusive
//!   ownership token.
//!
//! Both machines are pure: all I/O (persistence, action dispatch) is the
//! caller's responsibility. Concurrency safety rests on the generation
//! counter and ownership token carried in the records themselves.

pub mod console;
pub mod context;
pub mod generation;
pub mod instance;
pub mod step;
pub mod store;
pub mod telemetry;
mod text;
pub mod vmm;

pub use generation::Generation;
