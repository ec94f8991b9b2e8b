use ntfy_sender::models::{NotifState, Settings};
use ntfy_sender::notifier::{
    alert_request, offline_start, offline_step, plan_reading, AlertKind, OfflineAction,
    OfflineEvent,
};
use ntfy_sender::ntfy::NtfyRequest;

fn bits(x: f64) -> u64 {
    x.to_bits()
}

fn settings_with_topic() -> Settings {
    let mut s = Settings::default();
    s.ntfy_server = "http://127.0.0.1:9999".to_string();
    s.ntfy_topic = "test".to_string();
    s
}

fn notif(status: &str, alerted: bool) -> NotifState {
    NotifState { last_status: status.to_string(), offline_alerted: alerted }
}

/// The message a plan's alert becomes, with the texts rendered as the
/// service renders them.
fn alert_message(s: &Settings, kind: AlertKind, co2: f64) -> Option<NtfyRequest> {
    let threshold = f64::from_bits(kind.threshold(s));
    alert_request(s, kind, &format!("{:.3}", co2), &format!("{:.3}", threshold))
}

/// Runs one offline check to its end, answering each request from the
/// given values. Returns the result, the messages sent and the states saved.
fn run_check(
    elapsed: Option<u64>,
    ns: Option<NotifState>,
    settings: Option<Settings>,
) -> (bool, Vec<NtfyRequest>, Vec<NotifState>) {
    let (mut state, mut action) = offline_start();
    let mut sent = Vec::new();
    let mut saved = Vec::new();
    loop {
        let event = match action {
            OfflineAction::LoadLatest => OfflineEvent::LatestLoaded(elapsed),
            OfflineAction::LoadNotif => OfflineEvent::NotifLoaded(ns.clone()),
            OfflineAction::LoadSettings => {
                OfflineEvent::SettingsLoaded(settings.clone(), elapsed.unwrap_or(0))
            }
            OfflineAction::Deliver(req) => {
                sent.push(req);
                OfflineEvent::Delivered
            }
            OfflineAction::Save(n) => {
                saved.push(n);
                OfflineEvent::Saved
            }
            OfflineAction::Finish(fired) => return (fired, sent, saved),
        };
        let next = offline_step(state, event);
        state = next.0;
        action = next.1;
    }
}

#[test]
fn good_to_okay_fires_warn() {
    let s = settings_with_topic();
    let plan = plan_reading(&s, &notif("good", false), bits(0.12));
    assert_eq!(plan.status_update.unwrap().last_status, "okay");
    assert_eq!(plan.alert, Some(AlertKind::Warn));
    let req = alert_message(&s, AlertKind::Warn, 0.12).unwrap();
    assert!(req.title.contains("warning"), "title was: {}", req.title);
    assert_eq!(req.priority, "default");
    assert!(req.body.contains("warn threshold"), "body was: {}", req.body);
    assert!(req.body.contains("0.120"), "body was: {}", req.body);
    assert_eq!(req.url, "http://127.0.0.1:9999/test");
}

#[test]
fn good_to_bad_fires_danger_only() {
    let s = settings_with_topic();
    let plan = plan_reading(&s, &notif("good", false), bits(0.17));
    assert_eq!(plan.status_update.unwrap().last_status, "bad");
    assert_eq!(plan.alert, Some(AlertKind::Danger));
    let req = alert_message(&s, AlertKind::Danger, 0.17).unwrap();
    assert!(req.title.contains("danger"), "title was: {}", req.title);
    assert_eq!(req.priority, "high");
    assert!(req.body.contains("danger threshold"), "body was: {}", req.body);
}

#[test]
fn okay_to_bad_fires_danger() {
    let s = settings_with_topic();
    let plan = plan_reading(&s, &notif("okay", false), bits(0.17));
    assert_eq!(plan.status_update.unwrap().last_status, "bad");
    assert_eq!(plan.alert, Some(AlertKind::Danger));
}

#[test]
fn bad_to_okay_is_silent() {
    let s = settings_with_topic();
    let plan = plan_reading(&s, &notif("bad", false), bits(0.12));
    assert_eq!(plan.status_update.unwrap().last_status, "okay");
    assert_eq!(plan.alert, None);
}

#[test]
fn same_status_sends_no_duplicate() {
    let s = settings_with_topic();
    let plan = plan_reading(&s, &notif("okay", false), bits(0.12));
    assert_eq!(plan.alert, None);
    assert!(plan.status_update.is_none());
}

#[test]
fn send_on_warn_false_suppresses() {
    let mut s = settings_with_topic();
    s.send_on_warn = false;
    let plan = plan_reading(&s, &notif("good", false), bits(0.12));
    assert_eq!(
        plan.status_update.unwrap().last_status,
        "okay",
        "last_status should still update even when suppressed"
    );
    assert_eq!(plan.alert, None);
}

#[test]
fn send_on_danger_false_suppresses() {
    let mut s = settings_with_topic();
    s.send_on_danger = false;
    let plan = plan_reading(&s, &notif("good", false), bits(0.17));
    assert_eq!(
        plan.status_update.unwrap().last_status,
        "bad",
        "last_status should still update even when suppressed"
    );
    assert_eq!(plan.alert, None);
}

#[test]
fn empty_topic_skips_http() {
    let s = Settings::default();
    let plan = plan_reading(&s, &notif("good", false), bits(0.17));
    assert_eq!(plan.status_update.unwrap().last_status, "bad");
    assert_eq!(plan.alert, None);
    assert!(alert_message(&s, AlertKind::Danger, 0.17).is_none());
}

#[test]
fn new_reading_clears_offline_flag() {
    let s = Settings::default();
    let plan = plan_reading(&s, &notif("good", true), bits(0.06));
    let cleared = plan.clear_offline.expect("the flag is cleared and saved");
    assert!(!cleared.offline_alerted, "offline_alerted should be cleared when a new reading arrives");
    assert_eq!(cleared.last_status, "good");
    assert!(plan.status_update.is_none());
}

#[test]
fn offline_check_fires_once_then_deduplicates() {
    let s = settings_with_topic();
    let (fired, sent, saved) = run_check(Some(600), Some(notif("good", false)), Some(s.clone()));
    assert!(fired, "should fire on first check");
    assert_eq!(saved.len(), 1);
    assert!(saved[0].offline_alerted);
    assert_eq!(saved[0].last_status, "good");
    assert_eq!(sent.len(), 1);
    assert_eq!(sent[0].body, "No reading received for 10 minutes.");
    assert_eq!(sent[0].priority, "high");
    assert_eq!(sent[0].title, "CO\u{2082} sensor offline");

    let (fired_again, sent_again, saved_again) =
        run_check(Some(600), Some(saved[0].clone()), Some(s));
    assert!(!fired_again, "should not fire a second time");
    assert!(sent_again.is_empty());
    assert!(saved_again.is_empty());
}

#[test]
fn offline_check_skips_when_reading_is_fresh() {
    let s = settings_with_topic();
    let (fired, sent, _) = run_check(Some(0), Some(notif("good", false)), Some(s.clone()));
    assert!(!fired);
    assert!(sent.is_empty());
    let (fired, _, _) = run_check(Some(299), Some(notif("good", false)), Some(s));
    assert!(!fired);
}

#[test]
fn offline_clears_after_new_reading_allows_next_outage() {
    let s = settings_with_topic();
    let (_, _, saved) = run_check(Some(600), Some(notif("good", false)), Some(s.clone()));
    let after = saved[0].clone();
    let plan = plan_reading(&s, &after, bits(0.06));
    let cleared = plan.clear_offline.unwrap();
    assert!(!cleared.offline_alerted, "flag should reset after a new reading arrives");
    let (fired, _, _) = run_check(Some(600), Some(cleared), Some(s));
    assert!(fired);
}

#[test]
fn offline_check_without_topic_still_marks_alerted() {
    let (fired, sent, saved) =
        run_check(Some(300), Some(notif("okay", false)), Some(Settings::default()));
    assert!(fired);
    assert!(sent.is_empty());
    assert_eq!(saved, vec![notif("okay", true)]);
}

#[test]
fn offline_check_stops_on_load_failures() {
    let s = settings_with_topic();
    assert!(!run_check(None, Some(notif("good", false)), Some(s.clone())).0);
    assert!(!run_check(Some(900), None, Some(s)).0);
    assert!(!run_check(Some(900), Some(notif("good", false)), None).0);
}

#[test]
fn repeated_reading_keeps_state_and_stays_silent() {
    let s = settings_with_topic();
    let first = plan_reading(&s, &notif("garbage", true), bits(0.2));
    let stored = first.status_update.unwrap();
    assert_eq!(stored, notif("bad", false));
    let second = plan_reading(&s, &stored, bits(0.2));
    assert!(second.alert.is_none() && second.status_update.is_none() && second.clear_offline.is_none());
}
