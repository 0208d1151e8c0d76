//! Kernel-scheduler stress generator: a pool of spin workers pinned to all
//! cores but one, and a carrier thread on the reserved core that is woken by a
//! thread-directed periodic timer. This crate holds the verified core: worker
//! and core-set planning, the timer-resource lifecycle, the carrier thread's
//! state machine, the shutdown protocol, and the thin bindings to the OS calls
//! that pin and schedule threads.

pub mod carrier;
pub mod errors;
pub mod identity;
pub mod interval;
pub mod orchestrate;
pub mod os;
pub mod shutdown;
pub mod timer;
pub mod workers;
