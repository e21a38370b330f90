//! Order-intake workflow for a print shop's messaging bot.
//!
//! A customer's in-progress order is a value of a four-state machine:
//! images are collected, a paper type and a print size are requested in
//! turn, and the finished order is projected into a flat message for the
//! fulfillment side. Pure decision functions drive message handling and
//! timeout-based escalation; the surrounding I/O (webhook server, message
//! transport, clock ticks) stays outside and feeds these functions plain
//! values.

pub mod config;
pub mod data_types;
pub mod error;
pub mod handler;
pub mod scanner;
pub mod timestamp;
pub mod webhook;
pub mod worker_config;
