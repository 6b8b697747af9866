//! Ticket-grab orchestration engine: the vendor error classifier, the
//! token → confirm → submit → verify pipeline, the scheduled / immediate /
//! salvage grab modes, the anti-bot challenge sub-flow and the task registry.
pub mod classify;
pub mod pipeline;
pub mod countdown;
pub mod text;
pub mod ticket;
pub mod salvage;
pub mod risk;
pub mod registry;
pub mod ctoken;
pub mod grab;
pub mod clock;
pub mod config;
pub mod push;
pub mod log_collector;
pub mod login;
pub mod tasks;
pub mod orders;
pub mod ui;
pub mod account;
pub mod input;
