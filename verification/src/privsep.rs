//! Privilege separation: the messages between the processes and the decisions of the
//! workers.

pub mod error;
pub mod ipc;
pub mod messages;
pub mod workers;
