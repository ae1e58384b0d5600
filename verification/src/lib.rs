//! Watches a recycling site's container statuses: detects which containers
//! were emptied between two polls, schedules the next poll, and plans the
//! fan-out of notification messages to the configured sinks.

pub mod daemon;
pub mod detect;
pub mod dispatch;
pub mod humanize;
pub mod schedule;
pub mod snapshot;
