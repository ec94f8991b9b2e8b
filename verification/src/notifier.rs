//! When to notify: threshold crossings on each new reading, and a watchdog
//! that reports a sensor gone silent once per outage.

use vstd::prelude::*;
use crate::models::{
    compute_status, status_of, NotifState, NotifView, Settings, SettingsView, Status,
    lemma_status_name_roundtrip,
};
use crate::ntfy::{message, prepare, request_opt_view, NtfyRequest, NtfyRequestView};
use crate::level::float_ge;
use crate::text::{decimal, push_decimal, trim_trailing_slashes};

verus! {

/// Seconds without a reading after which the sensor counts as offline.
pub const OFFLINE_SECS: u64 = 300;

/// Which threshold a reading crossed upwards.
#[derive(Clone, Copy, PartialEq, Eq, Debug, Structural)]
pub enum AlertKind {
    Warn,
    Danger,
}

impl AlertKind {
    pub open spec fn threshold_of(self, s: SettingsView) -> u64 {
        match self {
            AlertKind::Warn => s.warn_threshold,
            AlertKind::Danger => s.danger_threshold,
        }
    }

    pub open spec fn title_text(self) -> Seq<char> {
        match self {
            AlertKind::Warn => "CO\u{2082} warning"@,
            AlertKind::Danger => "CO\u{2082} danger"@,
        }
    }

    pub open spec fn priority_text(self) -> Seq<char> {
        match self {
            AlertKind::Warn => "default"@,
            AlertKind::Danger => "high"@,
        }
    }

    /// The message body, given the reading and the crossed threshold as text.
    pub open spec fn body_text(self, co2: Seq<char>, threshold: Seq<char>) -> Seq<char> {
        match self {
            AlertKind::Warn => "CO\u{2082} crossed warn threshold: "@ + co2 + "% (warn: "@ + threshold
                + "%)"@,
            AlertKind::Danger => "CO\u{2082} crossed danger threshold: "@ + co2 + "% (danger: "@
                + threshold + "%)"@,
        }
    }

    /// The threshold (binary64 bit pattern) that this alert reports.
    pub fn threshold(&self, settings: &Settings) -> (r: u64)
        ensures
            r == self.threshold_of(settings@),
    {
        match self {
            AlertKind::Warn => settings.warn_threshold,
            AlertKind::Danger => settings.danger_threshold,
        }
    }
}

/// The alert that a change from `prev` to `new` calls for: a warning on
/// good to okay, a danger alert on any rise to bad, each only when enabled
/// and when a topic is set; nothing on an unchanged or falling status.
pub open spec fn alert_for(prev: Status, new: Status, s: SettingsView) -> Option<AlertKind> {
    if prev == new {
        None
    } else if prev == Status::Good && new == Status::Okay && s.send_on_warn && s.ntfy_topic.len()
        > 0 {
        Some(AlertKind::Warn)
    } else if new == Status::Bad && s.send_on_danger && s.ntfy_topic.len() > 0 {
        Some(AlertKind::Danger)
    } else {
        None
    }
}

/// What to do on a new reading, in this order: save `clear_offline` if
/// present, send the alert if present, save `status_update` if present.
#[derive(Debug)]
pub struct ReadingPlan {
    pub clear_offline: Option<NotifState>,
    pub alert: Option<AlertKind>,
    pub status_update: Option<NotifState>,
}

pub struct ReadingPlanView {
    pub clear_offline: Option<NotifView>,
    pub alert: Option<AlertKind>,
    pub status_update: Option<NotifView>,
}

pub open spec fn notif_opt_view(n: Option<NotifState>) -> Option<NotifView> {
    match n {
        Some(x) => Some(x@),
        None => None,
    }
}

impl View for ReadingPlan {
    type V = ReadingPlanView;

    open spec fn view(&self) -> ReadingPlanView {
        ReadingPlanView {
            clear_offline: notif_opt_view(self.clear_offline),
            alert: self.alert,
            status_update: notif_opt_view(self.status_update),
        }
    }
}

/// The plan for a reading of level `co2` (binary64 bit pattern).
pub open spec fn reading_plan(s: SettingsView, ns: NotifView, co2: u64) -> ReadingPlanView {
    let new = status_of(co2, s.warn_threshold, s.danger_threshold);
    let prev = Status::parse(ns.last_status);
    ReadingPlanView {
        clear_offline: if ns.offline_alerted {
            Some(NotifView { last_status: ns.last_status, offline_alerted: false })
        } else {
            None
        },
        alert: alert_for(prev, new, s),
        status_update: if new != prev {
            Some(NotifView { last_status: new.name(), offline_alerted: false })
        } else {
            None
        },
    }
}

/// The notification state stored once a reading's plan has been carried out.
pub open spec fn notif_after_reading(s: SettingsView, ns: NotifView, co2: u64) -> NotifView {
    let p = reading_plan(s, ns, co2);
    match p.status_update {
        Some(u) => u,
        None => match p.clear_offline {
            Some(c) => c,
            None => ns,
        },
    }
}

/// The rules a reading's plan follows, stated on the thresholds and the
/// stored status name: a good-to-okay rise warns when warnings are on and a
/// topic is set, whatever the danger switch says; a rise to bad from good or
/// okay raises a danger alert when danger alerts are on and a topic is set;
/// no alert goes out without a topic, on a fall or on an unchanged status;
/// the new status is stored by name whenever it differs from the stored one;
/// a set offline flag is cleared.
pub open spec fn reading_rules(s: SettingsView, ns: NotifView, co2: u64, p: ReadingPlanView) -> bool {
    let prev = Status::parse(ns.last_status);
    let at_warn = float_ge(co2, s.warn_threshold);
    let at_danger = float_ge(co2, s.danger_threshold);
    let topic = s.ntfy_topic.len() > 0;
    &&& (prev == Status::Good && at_warn && !at_danger && s.send_on_warn && topic) ==> p.alert
        == Some(AlertKind::Warn)
    &&& (prev != Status::Bad && at_danger && s.send_on_danger && topic) ==> p.alert == Some(
        AlertKind::Danger,
    )
    &&& p.alert == Some(AlertKind::Warn) ==> (prev == Status::Good && at_warn && !at_danger
        && s.send_on_warn && topic)
    &&& p.alert == Some(AlertKind::Danger) ==> (prev != Status::Bad && at_danger
        && s.send_on_danger && topic)
    &&& (at_danger && prev != Status::Bad) ==> p.status_update == Some(
        NotifView { last_status: "bad"@, offline_alerted: false },
    )
    &&& (at_warn && !at_danger && prev != Status::Okay) ==> p.status_update == Some(
        NotifView { last_status: "okay"@, offline_alerted: false },
    )
    &&& (!at_warn && !at_danger && prev != Status::Good) ==> p.status_update == Some(
        NotifView { last_status: "good"@, offline_alerted: false },
    )
    &&& ((at_danger && prev == Status::Bad) || (at_warn && !at_danger && prev == Status::Okay) || (
    !at_warn && !at_danger && prev == Status::Good)) ==> p.status_update is None && p.alert is None
    &&& ns.offline_alerted ==> p.clear_offline == Some(
        NotifView { last_status: ns.last_status, offline_alerted: false },
    )
    &&& !ns.offline_alerted ==> p.clear_offline is None
}

/// Every reading's plan follows the rules above, for all settings, stored
/// states and levels.
pub proof fn lemma_reading_follows_rules(s: SettingsView, ns: NotifView, co2: u64)
    ensures
        reading_rules(s, ns, co2, reading_plan(s, ns, co2)),
{
}

/// Layout of an alert body: the fixed opening, then the reading's text, then
/// the kind's marker, then the threshold's text, then `%)`. The reading comes
/// right after the opening and the threshold right before the closing.
pub proof fn lemma_alert_body_layout(kind: AlertKind, co2: Seq<char>, threshold: Seq<char>)
    ensures
        kind == AlertKind::Warn ==> kind.body_text(co2, threshold) == "CO\u{2082} crossed warn threshold: "@
            + co2 + "% (warn: "@ + threshold + "%)"@,
        kind == AlertKind::Danger ==> kind.body_text(co2, threshold)
            == "CO\u{2082} crossed danger threshold: "@ + co2 + "% (danger: "@ + threshold + "%)"@,
        ({
            let opening = if kind == AlertKind::Warn {
                "CO\u{2082} crossed warn threshold: "@
            } else {
                "CO\u{2082} crossed danger threshold: "@
            };
            let b = kind.body_text(co2, threshold);
            &&& b.subrange(0, (opening.len() + co2.len()) as int) == opening + co2
            &&& b.subrange(b.len() - threshold.len() - 2, b.len() as int) == threshold + "%)"@
        }),
{
    let opening = if kind == AlertKind::Warn {
        "CO\u{2082} crossed warn threshold: "@
    } else {
        "CO\u{2082} crossed danger threshold: "@
    };
    let marker = if kind == AlertKind::Warn {
        "% (warn: "@
    } else {
        "% (danger: "@
    };
    let b = kind.body_text(co2, threshold);
    reveal_strlit("%)");
    assert(b == opening + co2 + marker + threshold + "%)"@);
    assert(b.subrange(0, (opening.len() + co2.len()) as int) =~= opening + co2);
    assert(b.subrange(b.len() - threshold.len() - 2, b.len() as int) =~= threshold + "%)"@);
}

/// Decides what a new reading triggers, from the loaded settings and
/// notification state.
pub fn plan_reading(settings: &Settings, ns: &NotifState, co2: u64) -> (p: ReadingPlan)
    ensures
        p@ == reading_plan(settings@, ns@, co2),
        reading_rules(settings@, ns@, co2, p@),
{
    let new_status = compute_status(co2, settings.warn_threshold, settings.danger_threshold);
    let prev_status = Status::from_str(ns.last_status.as_str());
    let clear_offline = if ns.offline_alerted {
        Some(NotifState { last_status: ns.last_status.clone(), offline_alerted: false })
    } else {
        None
    };
    let has_topic = !settings.ntfy_topic.as_str().is_empty();
    let alert = if new_status == prev_status {
        None
    } else if prev_status == Status::Good && new_status == Status::Okay && settings.send_on_warn
        && has_topic {
        Some(AlertKind::Warn)
    } else if new_status == Status::Bad && settings.send_on_danger && has_topic {
        Some(AlertKind::Danger)
    } else {
        None
    };
    let status_update = if new_status != prev_status {
        Some(NotifState { last_status: String::from_str(new_status.as_str()), offline_alerted: false })
    } else {
        None
    };
    ReadingPlan { clear_offline, alert, status_update }
}

/// The message for an alert, with the reading and the crossed threshold
/// already rendered as text; `None` when no topic is set.
pub fn alert_request(settings: &Settings, kind: AlertKind, co2_text: &str, threshold_text: &str) -> (r:
    Option<NtfyRequest>)
    ensures
        request_opt_view(r) == message(
            settings.ntfy_server@,
            settings.ntfy_topic@,
            kind.title_text(),
            kind.priority_text(),
            kind.body_text(co2_text@, threshold_text@),
        ),
        r is Some <==> settings.ntfy_topic@.len() > 0,
        r matches Some(q) ==> q.url@ == trim_trailing_slashes(settings.ntfy_server@) + "/"@
            + settings.ntfy_topic@,
        r matches Some(q) ==> q.title@ == (if kind == AlertKind::Warn {
            "CO\u{2082} warning"@
        } else {
            "CO\u{2082} danger"@
        }),
        r matches Some(q) ==> q.priority@ == (if kind == AlertKind::Warn {
            "default"@
        } else {
            "high"@
        }),
        r matches Some(q) ==> q.body@ == (if kind == AlertKind::Warn {
            "CO\u{2082} crossed warn threshold: "@ + co2_text@ + "% (warn: "@ + threshold_text@
                + "%)"@
        } else {
            "CO\u{2082} crossed danger threshold: "@ + co2_text@ + "% (danger: "@ + threshold_text@
                + "%)"@
        }),
{
    let (title, priority, mut body) = match kind {
        AlertKind::Warn => (
            "CO\u{2082} warning",
            "default",
            String::from_str("CO\u{2082} crossed warn threshold: "),
        ),
        AlertKind::Danger => (
            "CO\u{2082} danger",
            "high",
            String::from_str("CO\u{2082} crossed danger threshold: "),
        ),
    };
    body.append(co2_text);
    match kind {
        AlertKind::Warn => body.append("% (warn: "),
        AlertKind::Danger => body.append("% (danger: "),
    }
    body.append(threshold_text);
    body.append("%)");
    prepare(
        settings.ntfy_server.as_str(),
        settings.ntfy_topic.as_str(),
        title,
        priority,
        body.as_str(),
    )
}

/// A second reading of the same level right after the first changes nothing
/// and sends nothing: alerts are never repeated for an unchanged status.
pub proof fn lemma_no_duplicate_alert(s: SettingsView, ns: NotifView, co2: u64)
    ensures
        reading_plan(s, notif_after_reading(s, ns, co2), co2).alert is None,
        reading_plan(s, notif_after_reading(s, ns, co2), co2).status_update is None,
        reading_plan(s, notif_after_reading(s, ns, co2), co2).clear_offline is None,
{
    lemma_status_name_roundtrip(status_of(co2, s.warn_threshold, s.danger_threshold));
}

/// After any reading the stored status is that reading's status and the
/// offline flag is clear, whether or not an alert went out.
pub proof fn lemma_reading_records_status(s: SettingsView, ns: NotifView, co2: u64)
    ensures
        Status::parse(notif_after_reading(s, ns, co2).last_status) == status_of(
            co2,
            s.warn_threshold,
            s.danger_threshold,
        ),
        !notif_after_reading(s, ns, co2).offline_alerted,
{
    lemma_status_name_roundtrip(status_of(co2, s.warn_threshold, s.danger_threshold));
}


/// Progress of one offline check.
#[derive(Debug)]
pub enum OfflineCheck {
    /// Waiting for the latest reading.
    AwaitLatest,
    /// The latest reading is stale; waiting for the notification state.
    AwaitNotif,
    /// No alert is out yet; waiting for the settings.
    AwaitSettings { last_status: String },
    /// The alert is being sent.
    AwaitDelivery { last_status: String },
    /// The alerted state is being saved.
    AwaitSave,
    /// The check is over; `fired` tells whether it reported an outage.
    Finished { fired: bool },
}

/// What the outside world reports back to an offline check.
#[derive(Debug)]
pub enum OfflineEvent {
    /// Whole seconds since the latest reading (the float difference cast to
    /// `u64`); `None` when there is no reading or it could not be loaded.
    LatestLoaded(Option<u64>),
    /// The notification state; `None` when it could not be loaded.
    NotifLoaded(Option<NotifState>),
    /// The settings (`None` when they could not be loaded) and the whole
    /// seconds since the latest reading, measured again at this point.
    SettingsLoaded(Option<Settings>, u64),
    /// The alert was sent, or sending failed.
    Delivered,
    /// The state was saved, or saving failed.
    Saved,
}

/// What an offline check asks the outside world to do next.
#[derive(Debug)]
pub enum OfflineAction {
    LoadLatest,
    LoadNotif,
    LoadSettings,
    Deliver(NtfyRequest),
    Save(NotifState),
    /// The check is over, with this result.
    Finish(bool),
}

pub enum OfflineCheckView {
    AwaitLatest,
    AwaitNotif,
    AwaitSettings { last_status: Seq<char> },
    AwaitDelivery { last_status: Seq<char> },
    AwaitSave,
    Finished { fired: bool },
}

pub enum OfflineEventView {
    LatestLoaded(Option<u64>),
    NotifLoaded(Option<NotifView>),
    SettingsLoaded(Option<SettingsView>, u64),
    Delivered,
    Saved,
}

pub enum OfflineActionView {
    LoadLatest,
    LoadNotif,
    LoadSettings,
    Deliver(NtfyRequestView),
    Save(NotifView),
    Finish(bool),
}

impl View for OfflineCheck {
    type V = OfflineCheckView;

    open spec fn view(&self) -> OfflineCheckView {
        match self {
            OfflineCheck::AwaitLatest => OfflineCheckView::AwaitLatest,
            OfflineCheck::AwaitNotif => OfflineCheckView::AwaitNotif,
            OfflineCheck::AwaitSettings { last_status } => OfflineCheckView::AwaitSettings {
                last_status: last_status@,
            },
            OfflineCheck::AwaitDelivery { last_status } => OfflineCheckView::AwaitDelivery {
                last_status: last_status@,
            },
            OfflineCheck::AwaitSave => OfflineCheckView::AwaitSave,
            OfflineCheck::Finished { fired } => OfflineCheckView::Finished { fired: *fired },
        }
    }
}

impl View for OfflineEvent {
    type V = OfflineEventView;

    open spec fn view(&self) -> OfflineEventView {
        match self {
            OfflineEvent::LatestLoaded(e) => OfflineEventView::LatestLoaded(*e),
            OfflineEvent::NotifLoaded(n) => OfflineEventView::NotifLoaded(notif_opt_view(*n)),
            OfflineEvent::SettingsLoaded(s, e) => OfflineEventView::SettingsLoaded(
                match s {
                    Some(x) => Some(x@),
                    None => None,
                },
                *e,
            ),
            OfflineEvent::Delivered => OfflineEventView::Delivered,
            OfflineEvent::Saved => OfflineEventView::Saved,
        }
    }
}

impl View for OfflineAction {
    type V = OfflineActionView;

    open spec fn view(&self) -> OfflineActionView {
        match self {
            OfflineAction::LoadLatest => OfflineActionView::LoadLatest,
            OfflineAction::LoadNotif => OfflineActionView::LoadNotif,
            OfflineAction::LoadSettings => OfflineActionView::LoadSettings,
            OfflineAction::Deliver(r) => OfflineActionView::Deliver(r@),
            OfflineAction::Save(n) => OfflineActionView::Save(n@),
            OfflineAction::Finish(b) => OfflineActionView::Finish(*b),
        }
    }
}

/// Body of the outage message after `elapsed_secs` seconds of silence.
pub open spec fn offline_body(elapsed_secs: u64) -> Seq<char> {
    "No reading received for "@ + decimal((elapsed_secs / 60) as nat) + " minutes."@
}

/// The outage message for these settings.
pub open spec fn offline_message(s: SettingsView, elapsed_secs: u64) -> Option<NtfyRequestView> {
    message(s.ntfy_server, s.ntfy_topic, "CO\u{2082} sensor offline"@, "high"@, offline_body(elapsed_secs))
}

/// One step of the offline check. Stale means at least `OFFLINE_SECS`
/// seconds without a reading; an outage is reported once: the check fires
/// only when the state says no alert is out, sends the outage message when a
/// topic is set, then saves the state with the alert marked. Any failure to
/// load, and any event that does not fit the current step, ends the check
/// without firing.
pub open spec fn offline_next(s: OfflineCheckView, e: OfflineEventView) -> (
    OfflineCheckView,
    OfflineActionView,
) {
    let stop = (OfflineCheckView::Finished { fired: false }, OfflineActionView::Finish(false));
    match s {
        OfflineCheckView::AwaitLatest => match e {
            OfflineEventView::LatestLoaded(Some(elapsed)) => if elapsed >= OFFLINE_SECS {
                (OfflineCheckView::AwaitNotif, OfflineActionView::LoadNotif)
            } else {
                stop
            },
            _ => stop,
        },
        OfflineCheckView::AwaitNotif => match e {
            OfflineEventView::NotifLoaded(Some(ns)) => if ns.offline_alerted {
                stop
            } else {
                (
                    OfflineCheckView::AwaitSettings { last_status: ns.last_status },
                    OfflineActionView::LoadSettings,
                )
            },
            _ => stop,
        },
        OfflineCheckView::AwaitSettings { last_status } => match e {
            OfflineEventView::SettingsLoaded(Some(st), elapsed) => match offline_message(
                st,
                elapsed,
            ) {
                Some(m) => (
                    OfflineCheckView::AwaitDelivery { last_status },
                    OfflineActionView::Deliver(m),
                ),
                None => (
                    OfflineCheckView::AwaitSave,
                    OfflineActionView::Save(NotifView { last_status, offline_alerted: true }),
                ),
            },
            _ => stop,
        },
        OfflineCheckView::AwaitDelivery { last_status } => match e {
            OfflineEventView::Delivered => (
                OfflineCheckView::AwaitSave,
                OfflineActionView::Save(NotifView { last_status, offline_alerted: true }),
            ),
            _ => stop,
        },
        OfflineCheckView::AwaitSave => match e {
            OfflineEventView::Saved => (
                OfflineCheckView::Finished { fired: true },
                OfflineActionView::Finish(true),
            ),
            _ => stop,
        },
        OfflineCheckView::Finished { fired } => (
            OfflineCheckView::Finished { fired },
            OfflineActionView::Finish(fired),
        ),
    }
}

/// Where an offline check begins: by loading the latest reading.
pub fn offline_start() -> (r: (OfflineCheck, OfflineAction))
    ensures
        r.0@ == OfflineCheckView::AwaitLatest,
        r.1@ == OfflineActionView::LoadLatest,
{
    (OfflineCheck::AwaitLatest, OfflineAction::LoadLatest)
}

fn offline_request(settings: &Settings, elapsed_secs: u64) -> (r: Option<NtfyRequest>)
    ensures
        request_opt_view(r) == offline_message(settings@, elapsed_secs),
{
    let mut body = String::from_str("No reading received for ");
    push_decimal(&mut body, elapsed_secs / 60);
    body.append(" minutes.");
    prepare(
        settings.ntfy_server.as_str(),
        settings.ntfy_topic.as_str(),
        "CO\u{2082} sensor offline",
        "high",
        body.as_str(),
    )
}

/// Advances an offline check by one event.
pub fn offline_step(state: OfflineCheck, event: OfflineEvent) -> (r: (OfflineCheck, OfflineAction))
    ensures
        (r.0@, r.1@) == offline_next(state@, event@),
{
    match state {
        OfflineCheck::AwaitLatest => match event {
            OfflineEvent::LatestLoaded(Some(elapsed)) => if elapsed >= OFFLINE_SECS {
                (OfflineCheck::AwaitNotif, OfflineAction::LoadNotif)
            } else {
                (OfflineCheck::Finished { fired: false }, OfflineAction::Finish(false))
            },
            _ => (OfflineCheck::Finished { fired: false }, OfflineAction::Finish(false)),
        },
        OfflineCheck::AwaitNotif => match event {
            OfflineEvent::NotifLoaded(Some(ns)) => if ns.offline_alerted {
                (OfflineCheck::Finished { fired: false }, OfflineAction::Finish(false))
            } else {
                (
                    OfflineCheck::AwaitSettings { last_status: ns.last_status },
                    OfflineAction::LoadSettings,
                )
            },
            _ => (OfflineCheck::Finished { fired: false }, OfflineAction::Finish(false)),
        },
        OfflineCheck::AwaitSettings { last_status } => match event {
            OfflineEvent::SettingsLoaded(Some(settings), elapsed) => match offline_request(
                &settings,
                elapsed,
            ) {
                Some(m) => (OfflineCheck::AwaitDelivery { last_status }, OfflineAction::Deliver(m)),
                None => (
                    OfflineCheck::AwaitSave,
                    OfflineAction::Save(NotifState { last_status, offline_alerted: true }),
                ),
            },
            _ => (OfflineCheck::Finished { fired: false }, OfflineAction::Finish(false)),
        },
        OfflineCheck::AwaitDelivery { last_status } => match event {
            OfflineEvent::Delivered => (
                OfflineCheck::AwaitSave,
                OfflineAction::Save(NotifState { last_status, offline_alerted: true }),
            ),
            _ => (OfflineCheck::Finished { fired: false }, OfflineAction::Finish(false)),
        },
        OfflineCheck::AwaitSave => match event {
            OfflineEvent::Saved => (OfflineCheck::Finished { fired: true }, OfflineAction::Finish(true)),
            _ => (OfflineCheck::Finished { fired: false }, OfflineAction::Finish(false)),
        },
        OfflineCheck::Finished { fired } => (
            OfflineCheck::Finished { fired },
            OfflineAction::Finish(fired),
        ),
    }
}

/// Whatever state a check saves marks the outage as alerted.
pub proof fn lemma_offline_saves_alerted(s: OfflineCheckView, e: OfflineEventView)
    ensures
        offline_next(s, e).1 matches OfflineActionView::Save(n) ==> n.offline_alerted,
{
}

/// A check reports success only when the alerted state has been saved.
pub proof fn lemma_offline_fires_after_save(s: OfflineCheckView, e: OfflineEventView)
    requires
        !(s is Finished),
        offline_next(s, e).1 == OfflineActionView::Finish(true),
    ensures
        s == OfflineCheckView::AwaitSave,
        e == OfflineEventView::Saved,
{
}

/// What the outside world holds during one offline check: the whole seconds
/// since the latest reading (`None`: none, or it could not be loaded), the
/// notification state and the settings (`None`: could not be loaded), and
/// the seconds measured again when the settings arrive.
pub struct OfflineWorld {
    pub latest: Option<u64>,
    pub notif: Option<NotifView>,
    pub settings: Option<SettingsView>,
    pub elapsed_again: u64,
}

/// The event with which the world answers an action.
pub open spec fn answer(a: OfflineActionView, w: OfflineWorld) -> OfflineEventView {
    match a {
        OfflineActionView::LoadLatest => OfflineEventView::LatestLoaded(w.latest),
        OfflineActionView::LoadNotif => OfflineEventView::NotifLoaded(w.notif),
        OfflineActionView::LoadSettings => OfflineEventView::SettingsLoaded(
            w.settings,
            w.elapsed_again,
        ),
        OfflineActionView::Deliver(_) => OfflineEventView::Delivered,
        OfflineActionView::Save(_) => OfflineEventView::Saved,
        OfflineActionView::Finish(_) => OfflineEventView::Saved,
    }
}

/// Result of driving a check from `(s, a)` against the world for at most
/// `fuel` steps: whether it fired, the first state it saved and the first
/// message it delivered.
pub open spec fn run_offline(s: OfflineCheckView, a: OfflineActionView, w: OfflineWorld, fuel: nat) -> (
    bool,
    Option<NotifView>,
    Option<NtfyRequestView>,
)
    decreases fuel,
{
    match a {
        OfflineActionView::Finish(f) => (f, None, None),
        _ => if fuel == 0 {
            (false, None, None)
        } else {
            let next = offline_next(s, answer(a, w));
            let rest = run_offline(next.0, next.1, w, (fuel - 1) as nat);
            (
                rest.0,
                match a {
                    OfflineActionView::Save(n) => Some(n),
                    _ => rest.1,
                },
                match a {
                    OfflineActionView::Deliver(m) => Some(m),
                    _ => rest.2,
                },
            )
        },
    }
}

/// Whether the world calls for an outage report: a latest reading at least
/// five minutes (300 s) old, a
/// loadable state that says no alert is out, loadable settings.
pub open spec fn offline_due(w: OfflineWorld) -> bool {
    &&& w.latest matches Some(e) && e >= 300
    &&& w.notif matches Some(n) && !n.offline_alerted
    &&& w.settings is Some
}

/// A whole check, from its start, with enough steps to finish.
pub open spec fn offline_check(w: OfflineWorld) -> (bool, Option<NotifView>, Option<NtfyRequestView>) {
    run_offline(OfflineCheckView::AwaitLatest, OfflineActionView::LoadLatest, w, 6)
}

/// A check reports an outage exactly when the latest reading is at least
/// `OFFLINE_SECS` seconds old, the notification state loads and says no
/// alert is out, and the settings load; it then has sent the outage message
/// when a topic is set and saved that state with the alert marked. A check
/// that does not fire sends and saves nothing.
pub proof fn lemma_offline_check_outcome(w: OfflineWorld)
    ensures
        offline_check(w).0 == offline_due(w),
        offline_check(w).0 ==> offline_check(w).1 == Some(
            NotifView { last_status: w.notif.unwrap().last_status, offline_alerted: true },
        ),
        offline_check(w).0 ==> offline_check(w).2 == offline_message(
            w.settings.unwrap(),
            w.elapsed_again,
        ),
        !offline_check(w).0 ==> offline_check(w).1 is None && offline_check(w).2 is None,
{
    reveal_with_fuel(run_offline, 7);
}

/// An outage is reported once: a check run against the state that a firing
/// check saved does not fire, whatever else has changed.
pub proof fn lemma_offline_reported_once(w: OfflineWorld, next: OfflineWorld)
    requires
        offline_check(w).0,
        next.notif == offline_check(w).1,
    ensures
        !offline_check(next).0,
{
    lemma_offline_check_outcome(w);
    lemma_offline_check_outcome(next);
}

/// A reading in between re-arms the watchdog: run against the state a new
/// reading leaves behind, a check on a stale sensor with loadable settings
/// fires again.
pub proof fn lemma_offline_rearmed_by_reading(
    w: OfflineWorld,
    next: OfflineWorld,
    s: SettingsView,
    co2: u64,
)
    requires
        offline_check(w).0,
        next.notif == Some(notif_after_reading(s, offline_check(w).1.unwrap(), co2)),
        next.latest matches Some(e) && e >= OFFLINE_SECS,
        next.settings is Some,
    ensures
        offline_check(next).0,
{
    lemma_offline_check_outcome(next);
}

/// The outage message goes to the configured server: the server without
/// trailing slashes, a slash, the topic (the address test and threshold
/// messages use too), titled as an offline report with high priority and
/// counting whole minutes of silence. Without a topic nothing is sent and the
/// alerted state is saved at once.
pub proof fn lemma_offline_message_target(last_status: Seq<char>, st: SettingsView, elapsed: u64)
    ensures
        st.ntfy_topic.len() > 0 ==> offline_next(
            OfflineCheckView::AwaitSettings { last_status },
            OfflineEventView::SettingsLoaded(Some(st), elapsed),
        ) == (OfflineCheckView::AwaitDelivery { last_status }, OfflineActionView::Deliver(
            NtfyRequestView {
                url: trim_trailing_slashes(st.ntfy_server) + "/"@ + st.ntfy_topic,
                title: "CO\u{2082} sensor offline"@,
                priority: "high"@,
                body: "No reading received for "@ + decimal((elapsed / 60) as nat) + " minutes."@,
            },
        )),
        st.ntfy_topic.len() == 0 ==> offline_next(
            OfflineCheckView::AwaitSettings { last_status },
            OfflineEventView::SettingsLoaded(Some(st), elapsed),
        ) == (OfflineCheckView::AwaitSave, OfflineActionView::Save(
            NotifView { last_status, offline_alerted: true },
        )),
{
}

} // verus!
