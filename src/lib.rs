//! Periodic presence announcements for a Zulip account: phrase selection,
//! the phase engine, and the decisions of the announcement loop.

pub mod cli;
pub mod config;
pub mod zulip_status;
pub mod zuliprc;
pub mod zulipsis;
pub mod scheduler;
