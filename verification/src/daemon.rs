//! The loop's decisions: whether the process runs as a daemon at all, and
//! what one poll's evaluation yields. The loop itself — fetching, sending,
//! sleeping — is the surrounding program's business; the previous snapshot
//! is threaded through these functions explicitly, never hidden state.

use vstd::prelude::*;

use crate::detect::{detect_changes, prev_view, spec_changes, ChangeEvent};
use crate::snapshot::Snapshot;

verus! {

/// The runtime configuration: which station to watch and which notification
/// sinks are active.
#[derive(Clone, Debug)]
pub struct Config {
    /// The recycling station's number.
    pub station_id: u32,
    /// Whether emptying notifications go to the desktop environment.
    pub notify_desktop: bool,
    /// The host emptying notifications are posted to, if any.
    pub notify_ntfy_host: Option<String>,
    /// The base topic name those posts use.
    pub notify_ntfy_topic: String,
}

/// Whether the process keeps polling: it does exactly when at least one
/// notification sink is configured; otherwise it reports once and stops.
pub fn is_daemon(config: &Config) -> (r: bool)
    ensures
        r == (config.notify_desktop || config.notify_ntfy_host is Some),
{
    config.notify_desktop || config.notify_ntfy_host.is_some()
}

/// What one poll's evaluation asks the surrounding program to do.
pub enum PollStep {
    /// Not a daemon: report the whole current snapshot once and stop.
    ReportOnceAndStop,
    /// A daemon: notify these changed containers, then sleep and poll again,
    /// carrying the current snapshot as the next iteration's baseline.
    NotifyAndContinue(Vec<ChangeEvent>),
}

/// Evaluates one poll: a daemon gets exactly the changed containers between
/// the previous snapshot (if any) and the current one; a single-shot run
/// bypasses change detection and reports the current snapshot whole.
pub fn poll_step(daemon_mode: bool, current: &Snapshot, previous: Option<&Snapshot>) -> (r:
    PollStep)
    requires
        current.wf(),
        previous matches Some(p) ==> p.wf(),
    ensures
        !daemon_mode ==> r is ReportOnceAndStop,
        daemon_mode ==> (r matches PollStep::NotifyAndContinue(events) && events@.map_values(
            |e: ChangeEvent| e.material@,
        ) == spec_changes(current@, prev_view(previous))),
{
    if daemon_mode {
        PollStep::NotifyAndContinue(detect_changes(current, previous))
    } else {
        PollStep::ReportOnceAndStop
    }
}

} // verus!
