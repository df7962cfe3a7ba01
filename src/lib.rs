//! Identity session management for a multi-account encrypted-messaging client.
//!
//! The library holds the control logic: the counter model exposed to the UI,
//! relay resolution, the ordered event queue, the backfill watermark and the
//! activation sequence of a session. The transport, the stores and the task
//! runtime stay with the caller, which performs each requested step and
//! reports its outcome back.
pub mod model;
pub mod relay;
pub mod event_processor;
pub mod backfill;
pub mod session;
pub mod runtime;
pub mod invites;
