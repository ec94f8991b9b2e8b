//! The dashboard's data: readings, settings, notification state, display
//! periods and air-quality status.

use vstd::prelude::*;
use crate::level::{float_ge, ge};
use crate::text::str_eq;

verus! {

/// One sensor reading. Both fields are binary64 bit patterns: the CO2
/// concentration in percent and the Unix time in seconds.
#[derive(Clone, Copy, Debug, PartialEq)]
pub struct Co2Reading {
    pub co2: u64,
    pub time: u64,
}

/// Dashboard settings. The thresholds are binary64 bit patterns (percent).
#[derive(Clone, Debug, PartialEq)]
pub struct Settings {
    pub theme: String,
    pub warn_threshold: u64,
    pub danger_threshold: u64,
    pub ntfy_server: String,
    pub ntfy_topic: String,
    pub send_on_warn: bool,
    pub send_on_danger: bool,
}

/// The settings as plain values.
pub struct SettingsView {
    pub theme: Seq<char>,
    pub warn_threshold: u64,
    pub danger_threshold: u64,
    pub ntfy_server: Seq<char>,
    pub ntfy_topic: Seq<char>,
    pub send_on_warn: bool,
    pub send_on_danger: bool,
}

impl View for Settings {
    type V = SettingsView;

    open spec fn view(&self) -> SettingsView {
        SettingsView {
            theme: self.theme@,
            warn_threshold: self.warn_threshold,
            danger_threshold: self.danger_threshold,
            ntfy_server: self.ntfy_server@,
            ntfy_topic: self.ntfy_topic@,
            send_on_warn: self.send_on_warn,
            send_on_danger: self.send_on_danger,
        }
    }
}

/// Bit pattern of the default warn threshold, 0.10 (percent).
pub const DEFAULT_WARN_BITS: u64 = 0x3fb9_9999_9999_999a;

/// Bit pattern of the default danger threshold, 0.15 (percent).
pub const DEFAULT_DANGER_BITS: u64 = 0x3fc3_3333_3333_3333;

impl Default for Settings {
    fn default() -> (r: Settings)
        ensures
            r.theme@ == "dark"@,
            r.warn_threshold == DEFAULT_WARN_BITS,
            r.danger_threshold == DEFAULT_DANGER_BITS,
            r.ntfy_server@ == "https://ntfy.sh"@,
            r.ntfy_topic@ == Seq::<char>::empty(),
            r.send_on_warn,
            r.send_on_danger,
    {
        Settings {
            theme: String::from_str("dark"),
            warn_threshold: DEFAULT_WARN_BITS,
            danger_threshold: DEFAULT_DANGER_BITS,
            ntfy_server: String::from_str("https://ntfy.sh"),
            ntfy_topic: String::new(),
            send_on_warn: true,
            send_on_danger: true,
        }
    }
}

/// What the notifier remembers between readings.
#[derive(Clone, Debug, PartialEq)]
pub struct NotifState {
    pub last_status: String,
    pub offline_alerted: bool,
}

/// The notification state as plain values.
pub struct NotifView {
    pub last_status: Seq<char>,
    pub offline_alerted: bool,
}

impl View for NotifState {
    type V = NotifView;

    open spec fn view(&self) -> NotifView {
        NotifView { last_status: self.last_status@, offline_alerted: self.offline_alerted }
    }
}

/// Time window shown on the dashboard.
#[derive(Clone, Copy, PartialEq, Eq, Debug, Structural)]
pub enum Period {
    H1,
    H12,
    H24,
    W1,
    Mo1,
    Y1,
}

impl Period {
    /// The period a query key selects; any unknown key selects 24 hours.
    pub open spec fn parse(s: Seq<char>) -> Period {
        if s == "1h"@ {
            Period::H1
        } else if s == "12h"@ {
            Period::H12
        } else if s == "1w"@ {
            Period::W1
        } else if s == "1mo"@ {
            Period::Mo1
        } else if s == "1y"@ {
            Period::Y1
        } else {
            Period::H24
        }
    }

    pub open spec fn key(self) -> Seq<char> {
        match self {
            Period::H1 => "1h"@,
            Period::H12 => "12h"@,
            Period::H24 => "24h"@,
            Period::W1 => "1w"@,
            Period::Mo1 => "1mo"@,
            Period::Y1 => "1y"@,
        }
    }

    pub open spec fn label_text(self) -> Seq<char> {
        match self {
            Period::H1 => "1 hour"@,
            Period::H12 => "12 hours"@,
            Period::H24 => "24 hours"@,
            Period::W1 => "1 week"@,
            Period::Mo1 => "1 month"@,
            Period::Y1 => "1 year"@,
        }
    }

    pub open spec fn seconds(self) -> nat {
        match self {
            Period::H1 => 3_600,
            Period::H12 => 43_200,
            Period::H24 => 86_400,
            Period::W1 => 604_800,
            Period::Mo1 => 2_592_000,
            Period::Y1 => 31_536_000,
        }
    }

    pub fn from_str(s: &str) -> (p: Period)
        ensures
            p == Period::parse(s@),
            s@ == "1h"@ ==> p == Period::H1,
            s@ == "12h"@ ==> p == Period::H12,
            s@ == "24h"@ ==> p == Period::H24,
            s@ == "1w"@ ==> p == Period::W1,
            s@ == "1mo"@ ==> p == Period::Mo1,
            s@ == "1y"@ ==> p == Period::Y1,
            !(s@ == "1h"@ || s@ == "12h"@ || s@ == "1w"@ || s@ == "1mo"@ || s@ == "1y"@) ==> p
                == Period::H24,
    {
        proof {
            lemma_period_key_roundtrip(Period::H1);
            lemma_period_key_roundtrip(Period::H12);
            lemma_period_key_roundtrip(Period::H24);
            lemma_period_key_roundtrip(Period::W1);
            lemma_period_key_roundtrip(Period::Mo1);
            lemma_period_key_roundtrip(Period::Y1);
        }
        if str_eq(s, "1h") {
            Period::H1
        } else if str_eq(s, "12h") {
            Period::H12
        } else if str_eq(s, "1w") {
            Period::W1
        } else if str_eq(s, "1mo") {
            Period::Mo1
        } else if str_eq(s, "1y") {
            Period::Y1
        } else {
            Period::H24
        }
    }

    pub fn as_str(&self) -> (r: &'static str)
        ensures
            r@ == self.key(),
            *self == Period::H1 ==> r@ == "1h"@,
            *self == Period::H12 ==> r@ == "12h"@,
            *self == Period::H24 ==> r@ == "24h"@,
            *self == Period::W1 ==> r@ == "1w"@,
            *self == Period::Mo1 ==> r@ == "1mo"@,
            *self == Period::Y1 ==> r@ == "1y"@,
    {
        match self {
            Period::H1 => "1h",
            Period::H12 => "12h",
            Period::H24 => "24h",
            Period::W1 => "1w",
            Period::Mo1 => "1mo",
            Period::Y1 => "1y",
        }
    }

    pub fn label(&self) -> (r: &'static str)
        ensures
            r@ == self.label_text(),
            *self == Period::H1 ==> r@ == "1 hour"@,
            *self == Period::H12 ==> r@ == "12 hours"@,
            *self == Period::H24 ==> r@ == "24 hours"@,
            *self == Period::W1 ==> r@ == "1 week"@,
            *self == Period::Mo1 ==> r@ == "1 month"@,
            *self == Period::Y1 ==> r@ == "1 year"@,
    {
        match self {
            Period::H1 => "1 hour",
            Period::H12 => "12 hours",
            Period::H24 => "24 hours",
            Period::W1 => "1 week",
            Period::Mo1 => "1 month",
            Period::Y1 => "1 year",
        }
    }

    /// Length of the window in seconds.
    pub fn window_secs(&self) -> (r: u64)
        ensures
            r == self.seconds(),
            *self == Period::H1 ==> r == 3600,
            *self == Period::H12 ==> r == 43200,
            *self == Period::H24 ==> r == 86400,
            *self == Period::W1 ==> r == 604800,
            *self == Period::Mo1 ==> r == 2592000,
            *self == Period::Y1 ==> r == 31536000,
    {
        match self {
            Period::H1 => 3_600,
            Period::H12 => 43_200,
            Period::H24 => 86_400,
            Period::W1 => 604_800,
            Period::Mo1 => 2_592_000,
            Period::Y1 => 31_536_000,
        }
    }

    /// Length of the window in milliseconds.
    pub fn window_ms(&self) -> (r: u64)
        ensures
            r == self.seconds() * 1000,
            *self == Period::H1 ==> r == 3600 * 1000,
            *self == Period::H12 ==> r == 43200 * 1000,
            *self == Period::H24 ==> r == 86400 * 1000,
            *self == Period::W1 ==> r == 604800 * 1000,
            *self == Period::Mo1 ==> r == 2592000 * 1000,
            *self == Period::Y1 ==> r == 31536000 * 1000,
    {
        self.window_secs() * 1000
    }

    /// Every period, in the order the dashboard offers them.
    pub fn all() -> (r: Vec<Period>)
        ensures
            r@ == seq![Period::H1, Period::H12, Period::H24, Period::W1, Period::Mo1, Period::Y1],
    {
        vec![Period::H1, Period::H12, Period::H24, Period::W1, Period::Mo1, Period::Y1]
    }
}

/// Air quality of a reading against the thresholds.
#[derive(Clone, Copy, PartialEq, Eq, Debug, Structural)]
pub enum Status {
    Good,
    Okay,
    Bad,
}

impl Status {
    /// The status a stored name denotes; any unknown name denotes `Good`.
    pub open spec fn parse(s: Seq<char>) -> Status {
        if s == "okay"@ {
            Status::Okay
        } else if s == "bad"@ {
            Status::Bad
        } else {
            Status::Good
        }
    }

    pub open spec fn name(self) -> Seq<char> {
        match self {
            Status::Good => "good"@,
            Status::Okay => "okay"@,
            Status::Bad => "bad"@,
        }
    }

    pub open spec fn label_text(self) -> Seq<char> {
        match self {
            Status::Good => "GOOD"@,
            Status::Okay => "OKAY"@,
            Status::Bad => "BAD"@,
        }
    }

    pub open spec fn class_text(self) -> Seq<char> {
        match self {
            Status::Good => "ok"@,
            Status::Okay => "warn"@,
            Status::Bad => "danger"@,
        }
    }

    /// Severity: 0 for good, 1 for okay, 2 for bad.
    pub open spec fn rank(self) -> int {
        match self {
            Status::Good => 0,
            Status::Okay => 1,
            Status::Bad => 2,
        }
    }

    pub fn label(&self) -> (r: &'static str)
        ensures
            r@ == self.label_text(),
            *self == Status::Good ==> r@ == "GOOD"@,
            *self == Status::Okay ==> r@ == "OKAY"@,
            *self == Status::Bad ==> r@ == "BAD"@,
    {
        match self {
            Status::Good => "GOOD",
            Status::Okay => "OKAY",
            Status::Bad => "BAD",
        }
    }

    pub fn class(&self) -> (r: &'static str)
        ensures
            r@ == self.class_text(),
            *self == Status::Good ==> r@ == "ok"@,
            *self == Status::Okay ==> r@ == "warn"@,
            *self == Status::Bad ==> r@ == "danger"@,
    {
        match self {
            Status::Good => "ok",
            Status::Okay => "warn",
            Status::Bad => "danger",
        }
    }

    pub fn as_str(&self) -> (r: &'static str)
        ensures
            r@ == self.name(),
            *self == Status::Good ==> r@ == "good"@,
            *self == Status::Okay ==> r@ == "okay"@,
            *self == Status::Bad ==> r@ == "bad"@,
    {
        match self {
            Status::Good => "good",
            Status::Okay => "okay",
            Status::Bad => "bad",
        }
    }

    pub fn from_str(s: &str) -> (r: Status)
        ensures
            r == Status::parse(s@),
            s@ == "okay"@ ==> r == Status::Okay,
            s@ == "bad"@ ==> r == Status::Bad,
            !(s@ == "okay"@ || s@ == "bad"@) ==> r == Status::Good,
    {
        proof {
            lemma_status_name_roundtrip(Status::Bad);
        }
        if str_eq(s, "okay") {
            Status::Okay
        } else if str_eq(s, "bad") {
            Status::Bad
        } else {
            Status::Good
        }
    }
}

/// Status of level `cur` against the thresholds: bad at or above `danger`,
/// okay at or above `warn`, good otherwise (all binary64 bit patterns).
pub open spec fn status_of(cur: u64, warn: u64, danger: u64) -> Status {
    if float_ge(cur, danger) {
        Status::Bad
    } else if float_ge(cur, warn) {
        Status::Okay
    } else {
        Status::Good
    }
}

pub fn compute_status(cur: u64, warn: u64, danger: u64) -> (r: Status)
    ensures
        r == status_of(cur, warn, danger),
        float_ge(cur, danger) ==> r == Status::Bad,
        !float_ge(cur, danger) && float_ge(cur, warn) ==> r == Status::Okay,
        !float_ge(cur, danger) && !float_ge(cur, warn) ==> r == Status::Good,
{
    if ge(cur, danger) {
        Status::Bad
    } else if ge(cur, warn) {
        Status::Okay
    } else {
        Status::Good
    }
}

/// A status written by name reads back as the same status.
pub proof fn lemma_status_name_roundtrip(s: Status)
    ensures
        Status::parse(s.name()) == s,
{
    reveal_strlit("good");
    reveal_strlit("okay");
    reveal_strlit("bad");
    assert("good"@[0] != "okay"@[0]);
    assert("good"@.len() != "bad"@.len());
    assert("okay"@.len() != "bad"@.len());
}

/// A period written by key reads back as the same period.
pub proof fn lemma_period_key_roundtrip(p: Period)
    ensures
        Period::parse(p.key()) == p,
{
    reveal_strlit("1h");
    reveal_strlit("12h");
    reveal_strlit("24h");
    reveal_strlit("1w");
    reveal_strlit("1mo");
    reveal_strlit("1y");
    assert("1h"@.len() != "12h"@.len());
    assert("1h"@[1] != "1w"@[1]);
    assert("1h"@.len() != "1mo"@.len());
    assert("1h"@[1] != "1y"@[1]);
    assert("12h"@[1] != "1w"@[1]);
    assert("12h"@[1] != "1mo"@[1]);
    assert("12h"@.len() != "1y"@.len());
    assert("1w"@.len() != "1mo"@.len());
    assert("1w"@[1] != "1y"@[1]);
    assert("1mo"@.len() != "1y"@.len());
    assert("24h"@.len() != "1h"@.len());
    assert("24h"@[0] != "12h"@[0]);
    assert("24h"@.len() != "1w"@.len());
    assert("24h"@[0] != "1mo"@[0]);
    assert("24h"@.len() != "1y"@.len());
}

/// A higher level never gets a milder status: the classification is
/// monotone in the level for any thresholds.
pub proof fn lemma_status_monotone(lower: u64, higher: u64, warn: u64, danger: u64)
    requires
        float_ge(higher, lower),
    ensures
        status_of(lower, warn, danger).rank() <= status_of(higher, warn, danger).rank(),
{
}

/// The classification against the configured thresholds, for every level
/// and every pair of thresholds: bad exactly at or above `danger`; okay at
/// or above `warn` while below `danger`; good below both.
pub proof fn lemma_status_against_thresholds(cur: u64, warn: u64, danger: u64)
    ensures
        (status_of(cur, warn, danger) == Status::Bad) <==> float_ge(cur, danger),
        (status_of(cur, warn, danger) == Status::Okay) <==> (float_ge(cur, warn) && !float_ge(
            cur,
            danger,
        )),
        (status_of(cur, warn, danger) == Status::Good) <==> (!float_ge(cur, warn) && !float_ge(
            cur,
            danger,
        )),
{
}

} // verus!
