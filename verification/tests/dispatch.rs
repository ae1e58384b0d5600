use fti_notify::daemon::{is_daemon, poll_step, Config, PollStep};
use fti_notify::dispatch::{decimal_string, dispatch_plan, ntfy_topic_uri};
use fti_notify::snapshot::{Snapshot, Stamp};

#[test]
fn no_events_plans_no_sends() {
    // An empty batch means no sink is to be invoked at all.
    let messages: Vec<String> = Vec::new();
    let plans = dispatch_plan(&messages, 2);
    assert_eq!(plans.len(), 2);
    assert!(plans[0].is_empty());
    assert!(plans[1].is_empty());
}

#[test]
fn every_sink_gets_every_message() {
    // Two healthy sinks each receive the whole batch, in batch order.
    let messages = vec![
        "Plastic was just emptied".to_string(),
        "Paper was just emptied".to_string(),
        "Metal was just emptied".to_string(),
    ];
    let plans = dispatch_plan(&messages, 2);
    assert_eq!(plans.len(), 2);
    assert_eq!(plans[0], messages);
    assert_eq!(plans[1], messages);
}

#[test]
fn ntfy_uri_is_host_slash_topic_dash_station() {
    let uri = ntfy_topic_uri(
        &"https://ntfy.example".to_string(),
        &"fti-emptying".to_string(),
        12345,
    );
    assert_eq!(uri, "https://ntfy.example/fti-emptying-12345");
}

#[test]
fn decimal_string_writes_exact_digits() {
    assert_eq!(decimal_string(0), "0");
    assert_eq!(decimal_string(7), "7");
    assert_eq!(decimal_string(907), "907");
    assert_eq!(decimal_string(u32::MAX), "4294967295");
}

#[test]
fn daemon_mode_needs_a_sink() {
    let mut config = Config {
        station_id: 1,
        notify_desktop: false,
        notify_ntfy_host: None,
        notify_ntfy_topic: "fti-emptying".to_string(),
    };
    assert!(!is_daemon(&config));
    config.notify_desktop = true;
    assert!(is_daemon(&config));
    config.notify_desktop = false;
    config.notify_ntfy_host = Some("https://ntfy.example".to_string());
    assert!(is_daemon(&config));
}

#[test]
fn single_shot_bypasses_change_detection() {
    let t0 = Stamp { epoch: 1_000_000, day: 738_000 };
    let t1 = Stamp { epoch: 1_003_600, day: 738_000 };
    let mut old = Snapshot::new();
    old.insert("Plastic".to_string(), t0, t0);
    let mut new = Snapshot::new();
    new.insert("Plastic".to_string(), t1, t1);

    match poll_step(false, &new, Some(&old)) {
        PollStep::ReportOnceAndStop => (),
        PollStep::NotifyAndContinue(_) => panic!("single-shot run must not notify"),
    }
    match poll_step(true, &new, Some(&old)) {
        PollStep::ReportOnceAndStop => panic!("a daemon must keep going"),
        PollStep::NotifyAndContinue(events) => {
            assert_eq!(events.len(), 1);
            assert_eq!(events[0].material, "Plastic");
        }
    }
}
