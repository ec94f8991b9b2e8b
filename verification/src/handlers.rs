//! What the web handlers decide: the period a query selects, how a settings
//! form changes the settings, the dashboard's derived figures, a fresh ntfy
//! topic, the test message and the static files served.

use vstd::prelude::*;
use rand::Rng;
use crate::level::{float_ge, ge};
use crate::models::{Co2Reading, Period, Settings, SettingsView};
use crate::ntfy::{message, prepare, request_opt_view, NtfyRequest};
use crate::text::{lemma_digit_char, push_char, push_two_digits, str_eq, two_digits};

verus! {

/// The `period` query parameter.
#[derive(Clone, Debug)]
pub struct PeriodQuery {
    pub period: Option<String>,
}

impl PeriodQuery {
    /// The key the query asks for: `"1h"` when it names none.
    pub open spec fn requested(self) -> Seq<char> {
        match self.period {
            Some(p) => p@,
            None => "1h"@,
        }
    }

    /// The period the query selects.
    pub fn period(&self) -> (p: Period)
        ensures
            p == Period::parse(self.requested()),
    {
        match &self.period {
            Some(p) => Period::from_str(p.as_str()),
            None => Period::from_str("1h"),
        }
    }
}

/// The settings form. Thresholds are binary64 bit patterns; a checkbox is
/// `Some` exactly when it was ticked.
#[derive(Clone, Debug)]
pub struct SettingsForm {
    pub theme: Option<String>,
    pub warn_threshold: Option<u64>,
    pub danger_threshold: Option<u64>,
    pub ntfy_server: Option<String>,
    pub ntfy_topic: Option<String>,
    pub send_on_warn: Option<String>,
    pub send_on_danger: Option<String>,
}

pub open spec fn string_opt_view(s: Option<String>) -> Option<Seq<char>> {
    match s {
        Some(x) => Some(x@),
        None => None,
    }
}

/// The settings once the form is applied: a theme only when it is `dark`
/// or `light`, any given threshold, server or topic, and each notification
/// switch on exactly when its checkbox was sent.
pub open spec fn form_applied(s: SettingsView, f: SettingsForm) -> SettingsView {
    SettingsView {
        theme: match string_opt_view(f.theme) {
            Some(t) => if t == "dark"@ || t == "light"@ {
                t
            } else {
                s.theme
            },
            None => s.theme,
        },
        warn_threshold: match f.warn_threshold {
            Some(v) => v,
            None => s.warn_threshold,
        },
        danger_threshold: match f.danger_threshold {
            Some(v) => v,
            None => s.danger_threshold,
        },
        ntfy_server: match string_opt_view(f.ntfy_server) {
            Some(v) => v,
            None => s.ntfy_server,
        },
        ntfy_topic: match string_opt_view(f.ntfy_topic) {
            Some(v) => v,
            None => s.ntfy_topic,
        },
        send_on_warn: f.send_on_warn is Some,
        send_on_danger: f.send_on_danger is Some,
    }
}

/// Applies a submitted settings form to the stored settings.
pub fn apply_settings_form(settings: Settings, form: SettingsForm) -> (r: Settings)
    ensures
        r@ == form_applied(settings@, form),
        form.theme is Some && (form.theme.unwrap()@ == "dark"@ || form.theme.unwrap()@ == "light"@)
            ==> r.theme@ == form.theme.unwrap()@,
        form.theme is Some && !(form.theme.unwrap()@ == "dark"@ || form.theme.unwrap()@
            == "light"@) ==> r.theme@ == settings.theme@,
        form.theme is None ==> r.theme@ == settings.theme@,
        form.warn_threshold matches Some(v) ==> r.warn_threshold == v,
        form.warn_threshold is None ==> r.warn_threshold == settings.warn_threshold,
        form.danger_threshold matches Some(v) ==> r.danger_threshold == v,
        form.danger_threshold is None ==> r.danger_threshold == settings.danger_threshold,
        form.ntfy_server matches Some(v) ==> r.ntfy_server@ == v@,
        form.ntfy_server is None ==> r.ntfy_server@ == settings.ntfy_server@,
        form.ntfy_topic matches Some(v) ==> r.ntfy_topic@ == v@,
        form.ntfy_topic is None ==> r.ntfy_topic@ == settings.ntfy_topic@,
        r.send_on_warn == form.send_on_warn is Some,
        r.send_on_danger == form.send_on_danger is Some,
{
    let mut s = settings;
    let SettingsForm {
        theme,
        warn_threshold,
        danger_threshold,
        ntfy_server,
        ntfy_topic,
        send_on_warn,
        send_on_danger,
    } = form;
    if let Some(t) = theme {
        if str_eq(t.as_str(), "dark") || str_eq(t.as_str(), "light") {
            s.theme = t;
        }
    }
    if let Some(v) = warn_threshold {
        s.warn_threshold = v;
    }
    if let Some(v) = danger_threshold {
        s.danger_threshold = v;
    }
    if let Some(v) = ntfy_server {
        s.ntfy_server = v;
    }
    if let Some(v) = ntfy_topic {
        s.ntfy_topic = v;
    }
    s.send_on_warn = send_on_warn.is_some();
    s.send_on_danger = send_on_danger.is_some();
    s
}

/// Chart colours of a theme.
#[derive(Clone, Copy, Debug, PartialEq)]
pub struct ThemeColors {
    pub accent: &'static str,
    pub accent_rgb: &'static str,
    pub warn: &'static str,
    pub warn_rgb: &'static str,
    pub danger: &'static str,
    pub danger_rgb: &'static str,
    pub ok: &'static str,
    pub line: &'static str,
    pub ink_soft: &'static str,
    pub panel: &'static str,
    pub panel2: &'static str,
    pub ink: &'static str,
    pub bg: &'static str,
}

pub struct ThemeColorsView {
    pub accent: Seq<char>,
    pub accent_rgb: Seq<char>,
    pub warn: Seq<char>,
    pub warn_rgb: Seq<char>,
    pub danger: Seq<char>,
    pub danger_rgb: Seq<char>,
    pub ok: Seq<char>,
    pub line: Seq<char>,
    pub ink_soft: Seq<char>,
    pub panel: Seq<char>,
    pub panel2: Seq<char>,
    pub ink: Seq<char>,
    pub bg: Seq<char>,
}

impl View for ThemeColors {
    type V = ThemeColorsView;

    open spec fn view(&self) -> ThemeColorsView {
        ThemeColorsView {
            accent: self.accent@,
            accent_rgb: self.accent_rgb@,
            warn: self.warn@,
            warn_rgb: self.warn_rgb@,
            danger: self.danger@,
            danger_rgb: self.danger_rgb@,
            ok: self.ok@,
            line: self.line@,
            ink_soft: self.ink_soft@,
            panel: self.panel@,
            panel2: self.panel2@,
            ink: self.ink@,
            bg: self.bg@,
        }
    }
}

pub open spec fn light_colors() -> ThemeColorsView {
    ThemeColorsView {
        accent: "#3a8a98"@,
        accent_rgb: "58, 138, 152"@,
        warn: "#b07a2a"@,
        warn_rgb: "176, 122, 42"@,
        danger: "#b8412e"@,
        danger_rgb: "184, 65, 46"@,
        ok: "#4a8a64"@,
        line: "#e2e1dc"@,
        ink_soft: "#6b7178"@,
        panel: "#ffffff"@,
        panel2: "#faf8f3"@,
        ink: "#1a1d20"@,
        bg: "#f6f5f1"@,
    }
}

pub open spec fn dark_colors() -> ThemeColorsView {
    ThemeColorsView {
        accent: "#5fb8c4"@,
        accent_rgb: "95, 184, 196"@,
        warn: "#d4a24a"@,
        warn_rgb: "212, 162, 74"@,
        danger: "#d75a4a"@,
        danger_rgb: "215, 90, 74"@,
        ok: "#6fb88a"@,
        line: "#262c32"@,
        ink_soft: "#8a929b"@,
        panel: "#14181c"@,
        panel2: "#1a1f24"@,
        ink: "#eef1f4"@,
        bg: "#0d0f11"@,
    }
}

/// The light palette for the `light` theme, the dark palette for any other.
pub fn theme_colors(theme: &str) -> (r: ThemeColors)
    ensures
        r@ == (if theme@ == "light"@ {
            light_colors()
        } else {
            dark_colors()
        }),
{
    if str_eq(theme, "light") {
        ThemeColors {
            accent: "#3a8a98",
            accent_rgb: "58, 138, 152",
            warn: "#b07a2a",
            warn_rgb: "176, 122, 42",
            danger: "#b8412e",
            danger_rgb: "184, 65, 46",
            ok: "#4a8a64",
            line: "#e2e1dc",
            ink_soft: "#6b7178",
            panel: "#ffffff",
            panel2: "#faf8f3",
            ink: "#1a1d20",
            bg: "#f6f5f1",
        }
    } else {
        ThemeColors {
            accent: "#5fb8c4",
            accent_rgb: "95, 184, 196",
            warn: "#d4a24a",
            warn_rgb: "212, 162, 74",
            danger: "#d75a4a",
            danger_rgb: "215, 90, 74",
            ok: "#6fb88a",
            line: "#262c32",
            ink_soft: "#8a929b",
            panel: "#14181c",
            panel2: "#1a1f24",
            ink: "#eef1f4",
            bg: "#0d0f11",
        }
    }
}

/// `HH:MM:SS` (UTC) of a Unix time in whole seconds.
pub open spec fn clock(secs: u64) -> Seq<char> {
    two_digits(((secs % 86400) / 3600) as nat) + ":"@ + two_digits(((secs % 3600) / 60) as nat)
        + ":"@ + two_digits((secs % 60) as nat)
}

/// The time of day shown as "updated at".
pub fn clock_text(secs: u64) -> (r: String)
    ensures
        r@ == clock(secs),
        r@.len() == 8,
        r@[2] == ':' && r@[5] == ':',
        r@[0] as int == 48 + (secs % 86400) / 3600 / 10,
        r@[1] as int == 48 + (secs % 86400) / 3600 % 10,
        r@[3] as int == 48 + (secs % 3600) / 60 / 10,
        r@[4] as int == 48 + (secs % 3600) / 60 % 10,
        r@[6] as int == 48 + (secs % 60) / 10,
        r@[7] as int == 48 + (secs % 60) % 10,
{
    let mut s = String::new();
    push_two_digits(&mut s, (secs % 86400) / 3600);
    s.append(":");
    push_two_digits(&mut s, (secs % 3600) / 60);
    s.append(":");
    push_two_digits(&mut s, secs % 60);
    proof {
        reveal_strlit(":");
        lemma_digit_char(((secs % 86400) / 3600 / 10) as nat);
        lemma_digit_char(((secs % 86400) / 3600 % 10) as nat);
        lemma_digit_char(((secs % 3600) / 60 / 10) as nat);
        lemma_digit_char(((secs % 3600) / 60 % 10) as nat);
        lemma_digit_char(((secs % 60) / 10) as nat);
        lemma_digit_char(((secs % 60) % 10) as nat);
    }
    s
}

/// Styling of the maximum: a warning colour once it reaches the warn
/// threshold (binary64 bit patterns).
pub fn max_class(max: u64, warn: u64) -> (r: &'static str)
    ensures
        r@ == (if float_ge(max, warn) {
            "text-warn"@
        } else {
            "text-ink"@
        }),
{
    if ge(max, warn) {
        "text-warn"
    } else {
        "text-ink"
    }
}

/// The level the dashboard shows as current: the newest reading's, or 0.0
/// (bit pattern 0) when there is none. Readings come oldest first.
pub fn current_level(readings: &Vec<Co2Reading>) -> (r: u64)
    ensures
        r == (if readings@.len() == 0 {
            0u64
        } else {
            readings@.last().co2
        }),
{
    let n = readings.len();
    if n == 0 {
        0
    } else {
        readings[n - 1].co2
    }
}

/// Fixed start of every generated topic.
pub open spec fn topic_prefix() -> Seq<char> {
    "co2-detector-"@
}

/// The character a draw in `0..36` stands for: a digit, then `a` to `z`.
pub open spec fn topic_char(n: u8) -> char {
    if n < 10 {
        (48 + n) as char
    } else {
        (97 + n - 10) as char
    }
}

/// The topic that a sequence of draws spells.
pub open spec fn topic_from(draws: Seq<u8>) -> Seq<char> {
    topic_prefix() + draws.map_values(|n: u8| topic_char(n))
}

/// Number of random characters after the prefix.
pub const TOPIC_SUFFIX_LEN: usize = 5;

/// A random number in `0..bound` (`rand::thread_rng().gen_range(0..bound)`).
/// Trusted: rand documents `gen_range` as sampling uniformly from the
/// half-open range and panicking only on an empty one, which `bound > 0`
/// rules out. It may panic if the operating system's random source cannot
/// seed the thread generator; nothing here states otherwise.
#[verifier::external_body]
fn random_below(bound: u8) -> (r: u8)
    requires
        bound > 0,
    ensures
        r < bound,
{
    rand::thread_rng().gen_range(0..bound)
}

/// Spells a topic from draws in `0..36`.
pub fn topic_from_draws(draws: &Vec<u8>) -> (r: String)
    requires
        forall|i: int| 0 <= i < draws@.len() ==> draws@[i] < 36,
    ensures
        r@ == topic_from(draws@),
        r@.len() == 13 + draws@.len(),
        r@.subrange(0, 13) == "co2-detector-"@,
        forall|i: int| 0 <= i < draws@.len() ==> r@[13 + i] == topic_char(#[trigger] draws@[i]),
{
    let mut s = String::from_str("co2-detector-");
    let n = draws.len();
    let mut i: usize = 0;
    while i < n
        invariant
            n == draws@.len(),
            i <= n,
            forall|k: int| 0 <= k < draws@.len() ==> draws@[k] < 36,
            s@ == topic_prefix() + draws@.subrange(0, i as int).map_values(|m: u8| topic_char(m)),
        decreases n - i,
    {
        let d = draws[i];
        let c = if d < 10 {
            (48u8 + d) as char
        } else {
            (97u8 + d - 10) as char
        };
        push_char(&mut s, c);
        assert(draws@.subrange(0, i + 1).map_values(|m: u8| topic_char(m)) =~= draws@.subrange(
            0,
            i as int,
        ).map_values(|m: u8| topic_char(m)).push(topic_char(d)));
        i = i + 1;
    }
    assert(draws@.subrange(0, n as int) =~= draws@);
    proof {
        reveal_strlit("co2-detector-");
        assert(s@.subrange(0, 13) =~= "co2-detector-"@);
    }
    s
}

/// A fresh random topic: the prefix and five random digits or lower-case
/// letters.
pub fn new_topic() -> (r: String)
    ensures
        exists|draws: Seq<u8>|
            draws.len() == TOPIC_SUFFIX_LEN && (forall|i: int|
                0 <= i < draws.len() ==> #[trigger] draws[i] < 36) && r@ == topic_from(draws),
        r@.len() == 18,
        r@.subrange(0, 13) == "co2-detector-"@,
        forall|i: int|
            13 <= i < 18 ==> ('0' <= #[trigger] r@[i] <= '9' || 'a' <= r@[i] <= 'z'),
{
    let mut draws: Vec<u8> = Vec::new();
    let mut i: usize = 0;
    while i < TOPIC_SUFFIX_LEN
        invariant
            i <= TOPIC_SUFFIX_LEN,
            draws@.len() == i,
            forall|k: int| 0 <= k < draws@.len() ==> draws@[k] < 36,
        decreases TOPIC_SUFFIX_LEN - i,
    {
        draws.push(random_below(36));
        i = i + 1;
    }
    let r = topic_from_draws(&draws);
    assert(forall|k: int| 0 <= k < draws@.len() ==> #[trigger] draws@[k] < 36);
    assert forall|i: int| 13 <= i < 18 implies ('0' <= #[trigger] r@[i] <= '9' || 'a' <= r@[i]
        <= 'z') by {
        lemma_topic_char(draws@[i - 13], draws@[i - 13]);
        assert(r@[13 + (i - 13)] == topic_char(draws@[i - 13]));
    }
    r
}

/// Draws map to topic characters one to one and in order: `0..10` to the
/// digits, `10..36` to `a` through `z`.
pub proof fn lemma_topic_char(n: u8, m: u8)
    requires
        n < 36,
        m < 36,
    ensures
        ('0' <= topic_char(n) <= '9') <==> n < 10,
        ('a' <= topic_char(n) <= 'z') <==> n >= 10,
        n < m ==> topic_char(n) < topic_char(m),
        n == 0 ==> topic_char(n) == '0',
        n == 10 ==> topic_char(n) == 'a',
        n == 35 ==> topic_char(n) == 'z',
{
}

/// The test message of the settings page; `None` when no topic is set.
pub fn test_request(settings: &Settings) -> (r: Option<NtfyRequest>)
    ensures
        request_opt_view(r) == message(
            settings.ntfy_server@,
            settings.ntfy_topic@,
            "CO\u{2082} test"@,
            "default"@,
            "Hello from co2dashboard."@,
        ),
{
    prepare(
        settings.ntfy_server.as_str(),
        settings.ntfy_topic.as_str(),
        "CO\u{2082} test",
        "default",
        "Hello from co2dashboard.",
    )
}

/// A file served under `/static/`: where it lies and its content type.
#[derive(Clone, Copy, Debug, PartialEq)]
pub struct StaticAsset {
    pub path: &'static str,
    pub content_type: &'static str,
}

/// The one static file served, the stylesheet; any other name is not found.
pub fn static_asset(file: &str) -> (r: Option<StaticAsset>)
    ensures
        r is Some <==> file@ == "output.css"@,
        r matches Some(a) ==> a.path@ == "static/output.css"@ && a.content_type@
            == "text/css; charset=utf-8"@,
{
    if str_eq(file, "output.css") {
        Some(StaticAsset { path: "static/output.css", content_type: "text/css; charset=utf-8" })
    } else {
        None
    }
}

/// A form's theme is taken exactly when it is `dark` or `light`; any other
/// theme, or none, leaves the stored theme as it was. The other fields are
/// taken when present, and each switch follows its checkbox.
pub proof fn lemma_form_theme(s: SettingsView, f: SettingsForm)
    ensures
        f.theme is Some && (f.theme.unwrap()@ == "dark"@ || f.theme.unwrap()@ == "light"@)
            ==> form_applied(s, f).theme == f.theme.unwrap()@,
        f.theme is Some && !(f.theme.unwrap()@ == "dark"@ || f.theme.unwrap()@ == "light"@)
            ==> form_applied(s, f).theme == s.theme,
        f.theme is None ==> form_applied(s, f).theme == s.theme,
        f.warn_threshold matches Some(v) ==> form_applied(s, f).warn_threshold == v,
        f.danger_threshold matches Some(v) ==> form_applied(s, f).danger_threshold == v,
        f.ntfy_server matches Some(v) ==> form_applied(s, f).ntfy_server == v@,
        f.ntfy_topic matches Some(v) ==> form_applied(s, f).ntfy_topic == v@,
        form_applied(s, f).send_on_warn == f.send_on_warn is Some,
        form_applied(s, f).send_on_danger == f.send_on_danger is Some,
{
}

} // verus!
