//! Coordination of a graphical session's start-up across independently
//! launched processes: the rendezvous between coordinator and igniter, the
//! orchestration state machine, and the commands it hands to the session
//! manager.

pub mod command;
pub mod environment;
pub mod igniter;
pub mod rendezvous;
pub mod reporter;
pub mod session;
pub mod traces;
