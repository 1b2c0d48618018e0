//! The webhook body that Prometheus Alertmanager posts, and the Seatalk
//! text made from it.

use crate::decimal::{push_signed_decimal, signed_decimal};
use crate::domain::seatalk::SeatalkText;
use crate::model::uptime_kuma::alert_banner;
use vstd::prelude::*;

verus! {

/// Alertmanager's notification of a group of alerts.
#[derive(Default, Debug, Clone, PartialEq)]
pub struct AlertManagerRequestBody {
    pub receiver: String,
    pub status: String,
    pub alerts: Vec<Alert>,
    pub group_labels: GroupLabels,
    pub common_labels: CommonLabels,
    pub common_annotations: CommonAnnotations,
    pub external_url: String,
    pub version: String,
    pub group_key: String,
    pub truncated_alerts: i64,
}

/// One alert of a notification.
#[derive(Default, Debug, Clone, PartialEq)]
pub struct Alert {
    pub status: String,
    pub labels: Labels,
    pub annotations: Annotations,
    pub starts_at: String,
    pub ends_at: String,
    pub generator_url: String,
    pub fingerprint: String,
}

/// The labels of an alert.
#[derive(Default, Debug, Clone, PartialEq)]
pub struct Labels {
    pub alertname: String,
    pub instance: String,
    pub severity: String,
}

/// The annotations of an alert.
#[derive(Default, Debug, Clone, PartialEq)]
pub struct Annotations {
    pub description: String,
    pub summary: String,
}

/// The labels that group the alerts of a notification.
#[derive(Default, Debug, Clone, PartialEq)]
pub struct GroupLabels {
    pub alertname: String,
}

/// The labels that all alerts of a notification share.
#[derive(Default, Debug, Clone, PartialEq)]
pub struct CommonLabels {
    pub alertname: String,
    pub severity: String,
}

/// The annotations that all alerts of a notification share.
#[derive(Default, Debug, Clone, PartialEq)]
pub struct CommonAnnotations {
    pub summary: String,
}

/// What `str::to_uppercase` gives for a text: its Unicode uppercase mapping.
pub uninterp spec fn uppercase(text: Seq<char>) -> Seq<char>;

/// Calls `str::to_uppercase`, whose result is a function of the text alone;
/// the Unicode case mapping itself is not written out here.
#[verifier::external_body]
fn to_uppercase(text: &str) -> (upper: String)
    ensures
        upper@ == uppercase(text@),
{
    text.to_uppercase()
}

/// The whole seconds from the instant written `start` to the one written
/// `end`, as chrono computes them, or `None` when either is not RFC 3339.
pub uninterp spec fn rfc3339_elapsed_seconds(start: Seq<char>, end: Seq<char>) -> Option<i64>;

/// Parses both texts with chrono's `DateTime::parse_from_rfc3339` and, when
/// both parse, gives `num_seconds` of `end.signed_duration_since(start)`.
/// The result depends on the two texts alone; how chrono parses them and
/// counts leap seconds is not written out here.
#[verifier::external_body]
fn elapsed_seconds(start: &str, end: &str) -> (elapsed: Option<i64>)
    ensures
        elapsed == rfc3339_elapsed_seconds(start@, end@),
{
    match (chrono::DateTime::parse_from_rfc3339(start), chrono::DateTime::parse_from_rfc3339(end)) {
        (Ok(from), Ok(to)) => Some(to.signed_duration_since(from).num_seconds()),
        _ => None,
    }
}

/// Division that rounds toward zero, as Rust's `/` does on integers.
pub open spec fn div_toward_zero(a: int, b: int) -> int
    recommends
        b > 0,
{
    if a >= 0 {
        a / b
    } else {
        -((-a) / b)
    }
}

/// The whole hours in a span of `total` seconds.
pub open spec fn span_hours(total: int) -> int {
    div_toward_zero(total, 3600)
}

/// The whole minutes in a span of `total` seconds beyond its whole hours.
pub open spec fn span_minutes(total: int) -> int {
    div_toward_zero(total, 60) - span_hours(total) * 60
}

/// The seconds in a span of `total` seconds beyond its whole minutes.
pub open spec fn span_seconds(total: int) -> int {
    total - span_hours(total) * 3600 - span_minutes(total) * 60
}

/// The unit word after a count: plural when the count is above one.
pub open spec fn unit_word(count: int, singular: Seq<char>, plural: Seq<char>) -> Seq<char> {
    if count > 1 {
        plural
    } else {
        singular
    }
}

/// How a span of `total` seconds is told: hours, minutes and seconds.
pub open spec fn duration_text(total: int) -> Seq<char> {
    let h = span_hours(total);
    let m = span_minutes(total);
    let s = span_seconds(total);
    signed_decimal(h) + " "@ + unit_word(h, "hour"@, "hours"@) + " "@ + signed_decimal(m) + " "@
        + unit_word(m, "minute"@, "minutes"@) + " "@ + signed_decimal(s) + " "@ + unit_word(
        s,
        "second"@,
        "seconds"@,
    )
}

/// The block of a firing alert, with its status written as `status`.
pub open spec fn firing_block(a: Alert, status: Seq<char>) -> Seq<char> {
    "Name: "@ + a.labels.alertname@ + " \nInstance: "@ + a.labels.instance@ + "\nStart: "@
        + a.starts_at@ + "\nStatus: "@ + status + "\nSummary: "@ + a.annotations.summary@
        + "\nDescription: "@ + a.annotations.description@ + "\n\n"@
}

/// The block of a resolved alert whose span is told as `duration`, with its
/// status written as `status`.
pub open spec fn resolved_block(a: Alert, status: Seq<char>, duration: Seq<char>) -> Seq<char> {
    "Name: "@ + a.labels.alertname@ + " \nInstance: "@ + a.labels.instance@ + "\nStart At: "@
        + a.starts_at@ + "\nEnd At: "@ + a.ends_at@ + "\nStatus: "@ + status + "\nSummary: "@
        + a.annotations.summary@ + "\nDescription: "@ + a.annotations.description@
        + "\nDuration: "@ + duration + "\n\n"@
}

/// Whether an uppercased status is one that alerts are told by: `FIRING`
/// or `RESOLVED`.
pub open spec fn known_status(status: Seq<char>) -> bool {
    status == "FIRING"@ || status == "RESOLVED"@
}

/// The block of an alert whose uppercased status is `status` and whose
/// span, when it is resolved, is told as `duration`: a firing block, a
/// resolved block, or `"null"` for any other status.
pub open spec fn block_text(a: Alert, status: Seq<char>, duration: Seq<char>) -> Seq<char> {
    if status == "FIRING"@ {
        firing_block(a, status)
    } else if status == "RESOLVED"@ {
        resolved_block(a, status, duration)
    } else {
        "null"@
    }
}

/// The block that an alert contributes to the Seatalk text.
pub open spec fn alert_block(a: Alert) -> Seq<char> {
    block_text(
        a,
        uppercase(a.status@),
        duration_text(rfc3339_elapsed_seconds(a.starts_at@, a.ends_at@)->0 as int),
    )
}

/// An alert can be told: unless it is resolved, or its start and end are
/// both RFC 3339 instants.
pub open spec fn alert_ready(a: Alert) -> bool {
    uppercase(a.status@) == "RESOLVED"@ ==> rfc3339_elapsed_seconds(
        a.starts_at@,
        a.ends_at@,
    ) is Some
}

/// The blocks of a sequence of alerts, one after the other, in order.
pub open spec fn alerts_text(alerts: Seq<Alert>) -> Seq<char>
    decreases alerts.len(),
{
    if alerts.len() == 0 {
        Seq::empty()
    } else {
        alerts_text(alerts.drop_last()) + alert_block(alerts.last())
    }
}

/// Appends one of two words to `out`: `plural` when `count` is above one.
fn push_unit(out: &mut String, count: i64, singular: &str, plural: &str)
    ensures
        final(out)@ == old(out)@ + unit_word(count as int, singular@, plural@),
{
    if count > 1 {
        out.append(plural);
    } else {
        out.append(singular);
    }
}

/// Tells a span of `total` seconds as hours, minutes and seconds, such as
/// `"1 hour 1 minute 5 seconds"`.
pub fn format_duration(total: i64) -> (text: String)
    ensures
        text@ == duration_text(total as int),
{
    let negative = total < 0;
    let magnitude: u64 = if negative {
        (0i128 - (total as i128)) as u64
    } else {
        total as u64
    };
    let hours_mag: u64 = magnitude / 3600;
    let minutes_mag: u64 = magnitude / 60 - hours_mag * 60;
    let seconds_mag: u64 = magnitude - hours_mag * 3600 - minutes_mag * 60;
    let hours: i64 = if negative { 0 - (hours_mag as i64) } else { hours_mag as i64 };
    let minutes: i64 = if negative { 0 - (minutes_mag as i64) } else { minutes_mag as i64 };
    let seconds: i64 = if negative { 0 - (seconds_mag as i64) } else { seconds_mag as i64 };
    assert(hours == span_hours(total as int));
    assert(minutes == span_minutes(total as int));
    assert(seconds == span_seconds(total as int));
    let mut text = String::new();
    push_signed_decimal(&mut text, hours);
    text.append(" ");
    push_unit(&mut text, hours, "hour", "hours");
    text.append(" ");
    push_signed_decimal(&mut text, minutes);
    text.append(" ");
    push_unit(&mut text, minutes, "minute", "minutes");
    text.append(" ");
    push_signed_decimal(&mut text, seconds);
    text.append(" ");
    push_unit(&mut text, seconds, "second", "seconds");
    assert(text@ =~= duration_text(total as int));
    text
}

/// Tells how long it was from the instant written `start` to the one
/// written `end`; both must be RFC 3339 instants.
pub fn calculate_duration(start: &str, end: &str) -> (text: String)
    requires
        rfc3339_elapsed_seconds(start@, end@) is Some,
    ensures
        text@ == duration_text(rfc3339_elapsed_seconds(start@, end@)->0 as int),
{
    match elapsed_seconds(start, end) {
        Some(total) => format_duration(total),
        None => String::new(),
    }
}

/// Writes the block of `alert`, given its uppercased status and, for a
/// resolved alert, how long it lasted; `duration` is not used otherwise.
pub fn render_alert(alert: &Alert, status: &str, duration: &str) -> (block: String)
    ensures
        block@ == block_text(*alert, status@, duration@),
{
    let status_text = String::from_str(status);
    let firing = String::from_str("FIRING");
    let resolved = String::from_str("RESOLVED");
    if status_text == firing {
        let mut block = String::from_str("Name: ");
        block.append(alert.labels.alertname.as_str());
        block.append(" \nInstance: ");
        block.append(alert.labels.instance.as_str());
        block.append("\nStart: ");
        block.append(alert.starts_at.as_str());
        block.append("\nStatus: ");
        block.append(status);
        block.append("\nSummary: ");
        block.append(alert.annotations.summary.as_str());
        block.append("\nDescription: ");
        block.append(alert.annotations.description.as_str());
        block.append("\n\n");
        assert(block@ =~= firing_block(*alert, status@));
        block
    } else if status_text == resolved {
        let mut block = String::from_str("Name: ");
        block.append(alert.labels.alertname.as_str());
        block.append(" \nInstance: ");
        block.append(alert.labels.instance.as_str());
        block.append("\nStart At: ");
        block.append(alert.starts_at.as_str());
        block.append("\nEnd At: ");
        block.append(alert.ends_at.as_str());
        block.append("\nStatus: ");
        block.append(status);
        block.append("\nSummary: ");
        block.append(alert.annotations.summary.as_str());
        block.append("\nDescription: ");
        block.append(alert.annotations.description.as_str());
        block.append("\nDuration: ");
        block.append(duration);
        block.append("\n\n");
        assert(block@ =~= resolved_block(*alert, status@, duration@));
        block
    } else {
        String::from_str("null")
    }
}

/// Whether an uppercased status is one that alerts are told by; the block
/// of an alert of any other status is `"null"`.
pub fn is_known_status(status: &str) -> (known: bool)
    ensures
        known == known_status(status@),
{
    let status_text = String::from_str(status);
    let firing = String::from_str("FIRING");
    let resolved = String::from_str("RESOLVED");
    status_text == firing || status_text == resolved
}

impl Alert {
    /// The alert's status in upper case, as its block writes it.
    pub fn uppercase_status(&self) -> (status: String)
        ensures
            status@ == uppercase(self.status@),
    {
        to_uppercase(self.status.as_str())
    }
}

/// Writes the block that `alert` contributes to the Seatalk text.
fn alert_block_text(alert: &Alert) -> (block: String)
    requires
        alert_ready(*alert),
    ensures
        block@ == alert_block(*alert),
{
    let status = to_uppercase(alert.status.as_str());
    let resolved = String::from_str("RESOLVED");
    if status == resolved {
        let duration = calculate_duration(alert.starts_at.as_str(), alert.ends_at.as_str());
        render_alert(alert, status.as_str(), duration.as_str())
    } else {
        render_alert(alert, status.as_str(), "")
    }
}

/// Whether `alert` can be told, found by the same calls that telling it
/// makes.
fn check_alert_ready(alert: &Alert) -> (ready: bool)
    ensures
        ready == alert_ready(*alert),
{
    let status = to_uppercase(alert.status.as_str());
    let resolved = String::from_str("RESOLVED");
    if status == resolved {
        elapsed_seconds(alert.starts_at.as_str(), alert.ends_at.as_str()).is_some()
    } else {
        true
    }
}

impl SeatalkText for AlertManagerRequestBody {
    open spec fn text_ready(&self) -> bool {
        forall|i: int| 0 <= i < self.alerts@.len() ==> #[trigger] alert_ready(self.alerts@[i])
    }

    open spec fn seatalk_text(&self) -> Seq<char> {
        alert_banner() + alerts_text(self.alerts@)
    }

    fn is_text_ready(&self) -> (ready: bool) {
        let n = self.alerts.len();
        for i in 0..n
            invariant
                n == self.alerts@.len(),
                forall|j: int| 0 <= j < i ==> #[trigger] alert_ready(self.alerts@[j]),
        {
            if !check_alert_ready(&self.alerts[i]) {
                return false;
            }
        }
        true
    }

    fn generate_seatalk_text(&self) -> (text: String) {
        let mut body = String::new();
        let n = self.alerts.len();
        for i in 0..n
            invariant
                n == self.alerts@.len(),
                self.text_ready(),
                body@ == alerts_text(self.alerts@.take(i as int)),
        {
            assert(alert_ready(self.alerts@[i as int]));
            let block = alert_block_text(&self.alerts[i]);
            body.append(block.as_str());
            assert(self.alerts@.take((i + 1) as int).drop_last() =~= self.alerts@.take(i as int));
        }
        assert(self.alerts@.take(n as int) =~= self.alerts@);
        let mut text = String::from_str("ALERT 🔥 🔥 🔥 \n\n");
        text.append(body.as_str());
        text
    }
}

impl AlertManagerRequestBody {
    /// The Seatalk text of this notification, or `None` when one of its
    /// resolved alerts has a start or an end that is not an RFC 3339 instant.
    pub fn checked_seatalk_text(&self) -> (text: Option<String>)
        ensures
            text is Some <==> self.text_ready(),
            text matches Some(t) ==> t@ == self.seatalk_text(),
    {
        if self.is_text_ready() {
            Some(self.generate_seatalk_text())
        } else {
            None
        }
    }
}

/// A span of seconds splits into hours, minutes and seconds that add back
/// up to it; the minutes and the seconds are each less than sixty in size,
/// and no part has the sign opposite to the span's.
pub proof fn lemma_span_parts(total: int)
    ensures
        span_hours(total) * 3600 + span_minutes(total) * 60 + span_seconds(total) == total,
        -60 < span_minutes(total) < 60,
        -60 < span_seconds(total) < 60,
        total >= 0 ==> span_hours(total) >= 0 && span_minutes(total) >= 0 && span_seconds(total)
            >= 0,
        total <= 0 ==> span_hours(total) <= 0 && span_minutes(total) <= 0 && span_seconds(total)
            <= 0,
{
    let a: int = if total >= 0 { total } else { -total };
    vstd::arithmetic::div_mod::lemma_div_denominator(a, 60, 60);
    assert(a / 3600 == (a / 60) / 60);
    vstd::arithmetic::div_mod::lemma_fundamental_div_mod(a / 60, 60);
    vstd::arithmetic::div_mod::lemma_fundamental_div_mod(a, 60);
    vstd::arithmetic::div_mod::lemma_mod_bound(a / 60, 60);
    vstd::arithmetic::div_mod::lemma_mod_bound(a, 60);
    assert(a / 60 - (a / 3600) * 60 == (a / 60) % 60);
    assert(a - (a / 3600) * 3600 - ((a / 60) % 60) * 60 == a % 60);
}

/// The text of a run of alerts is the text of its first part followed by
/// the text of the rest: each alert is told on its own, in order.
pub proof fn lemma_alerts_text_append(first: Seq<Alert>, rest: Seq<Alert>)
    ensures
        alerts_text(first + rest) == alerts_text(first) + alerts_text(rest),
    decreases rest.len(),
{
    if rest.len() == 0 {
        assert(first + rest =~= first);
        assert(alerts_text(first) + alerts_text(rest) =~= alerts_text(first));
    } else {
        lemma_alerts_text_append(first, rest.drop_last());
        assert((first + rest).drop_last() =~= first + rest.drop_last());
        assert((first + rest).last() == rest.last());
        assert(alerts_text(first + rest) =~= alerts_text(first) + alerts_text(rest));
    }
}

/// A notification without alerts is told as the banner alone.
pub proof fn lemma_text_of_no_alert(body: AlertManagerRequestBody)
    requires
        body.alerts@.len() == 0,
    ensures
        body.seatalk_text() == "ALERT 🔥 🔥 🔥 \n\n"@,
{
    assert(body.seatalk_text() =~= "ALERT 🔥 🔥 🔥 \n\n"@);
}

/// One more alert in a notification adds its block at the end of the text,
/// and changes nothing before it: every alert is told, in order.
pub proof fn lemma_text_appends_alert(
    body: AlertManagerRequestBody,
    alert: Alert,
    longer: AlertManagerRequestBody,
)
    requires
        longer.alerts@ == body.alerts@.push(alert),
    ensures
        longer.seatalk_text() == body.seatalk_text() + alert_block(alert),
{
    assert(longer.alerts@.drop_last() =~= body.alerts@);
    assert(longer.seatalk_text() =~= body.seatalk_text() + alert_block(alert));
}

/// The text of a notification is as long as the banner and the blocks of
/// all its alerts together, and ends with the block of its last alert.
pub proof fn lemma_text_ends_with_last_block(body: AlertManagerRequestBody)
    requires
        body.alerts@.len() > 0,
    ensures
        body.seatalk_text().subrange(
            body.seatalk_text().len() - alert_block(body.alerts@.last()).len(),
            body.seatalk_text().len() as int,
        ) == alert_block(body.alerts@.last()),
{
    let t = body.seatalk_text();
    let last = alert_block(body.alerts@.last());
    assert(t =~= (alert_banner() + alerts_text(body.alerts@.drop_last())) + last);
    assert(t.subrange(t.len() - last.len(), t.len() as int) =~= last);
}

/// The block of a firing alert names the alert first and ends with its
/// whole description; its length is that of the fixed labels plus the
/// alert's name, instance, start, summary and description, and the
/// `FIRING` status. The duration is not used.
pub proof fn lemma_firing_block_shape(a: Alert, duration: Seq<char>)
    ensures
        ({
            let b = block_text(a, "FIRING"@, duration);
            let d = a.annotations.description@;
            &&& b.len() == 67 + a.labels.alertname@.len() + a.labels.instance@.len()
                + a.starts_at@.len() + a.annotations.summary@.len() + d.len()
            &&& b.subrange(0, 6 + a.labels.alertname@.len() as int) == "Name: "@
                + a.labels.alertname@
            &&& b.subrange(b.len() - d.len() - 16, b.len() as int) == "\nDescription: "@ + d
                + "\n\n"@
            &&& b == block_text(a, "FIRING"@, Seq::empty())
        }),
{
    reveal_strlit("FIRING");
    reveal_strlit("RESOLVED");
    reveal_strlit("Name: ");
    reveal_strlit(" \nInstance: ");
    reveal_strlit("\nStart: ");
    reveal_strlit("\nStatus: ");
    reveal_strlit("\nSummary: ");
    reveal_strlit("\nDescription: ");
    reveal_strlit("\n\n");
    let b = block_text(a, "FIRING"@, duration);
    let d = a.annotations.description@;
    let n = a.labels.alertname@;
    assert(b.subrange(0, 6 + n.len() as int) =~= "Name: "@ + n);
    assert(b.subrange(b.len() - d.len() - 16, b.len() as int) =~= "\nDescription: "@ + d
        + "\n\n"@);
}

/// The block of a resolved alert names the alert first and ends with the
/// whole duration it is given; its length is that of the fixed labels plus
/// the alert's name, instance, start, end, summary and description, the
/// `RESOLVED` status and the duration.
pub proof fn lemma_resolved_block_shape(a: Alert, duration: Seq<char>)
    ensures
        ({
            let b = block_text(a, "RESOLVED"@, duration);
            &&& b.len() == 92 + a.labels.alertname@.len() + a.labels.instance@.len()
                + a.starts_at@.len() + a.ends_at@.len() + a.annotations.summary@.len()
                + a.annotations.description@.len() + duration.len()
            &&& b.subrange(0, 6 + a.labels.alertname@.len() as int) == "Name: "@
                + a.labels.alertname@
            &&& b.subrange(b.len() - duration.len() - 13, b.len() as int) == "\nDuration: "@
                + duration + "\n\n"@
        }),
{
    reveal_strlit("FIRING");
    reveal_strlit("RESOLVED");
    reveal_strlit("Name: ");
    reveal_strlit(" \nInstance: ");
    reveal_strlit("\nStart At: ");
    reveal_strlit("\nEnd At: ");
    reveal_strlit("\nStatus: ");
    reveal_strlit("\nSummary: ");
    reveal_strlit("\nDescription: ");
    reveal_strlit("\nDuration: ");
    reveal_strlit("\n\n");
    let b = block_text(a, "RESOLVED"@, duration);
    let n = a.labels.alertname@;
    assert(b.subrange(0, 6 + n.len() as int) =~= "Name: "@ + n);
    assert(b.subrange(b.len() - duration.len() - 13, b.len() as int) =~= "\nDuration: "@
        + duration + "\n\n"@);
}

/// An alert whose status is neither `FIRING` nor `RESOLVED` is told as
/// `"null"`, whatever else it holds.
pub proof fn lemma_other_block(a: Alert, status: Seq<char>, duration: Seq<char>)
    requires
        status != "FIRING"@,
        status != "RESOLVED"@,
    ensures
        block_text(a, status, duration) == seq!['n', 'u', 'l', 'l'],
{
    reveal_strlit("null");
}

/// The block that an alert contributes is the one for its uppercased
/// status: a firing alert's block does not depend on its end, and a
/// resolved alert's block carries the told duration of its span.
pub proof fn lemma_alert_block_by_status(a: Alert)
    ensures
        uppercase(a.status@) == "FIRING"@ ==> alert_block(a) == block_text(
            a,
            "FIRING"@,
            Seq::empty(),
        ),
        uppercase(a.status@) == "RESOLVED"@ ==> alert_block(a) == block_text(
            a,
            "RESOLVED"@,
            duration_text(rfc3339_elapsed_seconds(a.starts_at@, a.ends_at@)->0 as int),
        ),
{
    reveal_strlit("FIRING");
    reveal_strlit("RESOLVED");
}

/// A span is told as its hours, minutes and seconds, each followed by its
/// unit, which is plural exactly when the count is above one.
pub proof fn lemma_duration_text_words(total: int)
    ensures
        ({
            let h = span_hours(total);
            let m = span_minutes(total);
            let s = span_seconds(total);
            duration_text(total) == signed_decimal(h) + (if h > 1 {
                " hours"@
            } else {
                " hour"@
            }) + " "@ + signed_decimal(m) + (if m > 1 {
                " minutes"@
            } else {
                " minute"@
            }) + " "@ + signed_decimal(s) + (if s > 1 {
                " seconds"@
            } else {
                " second"@
            })
        }),
{
    reveal_strlit(" ");
    reveal_strlit("hour");
    reveal_strlit("hours");
    reveal_strlit(" hour");
    reveal_strlit(" hours");
    reveal_strlit("minute");
    reveal_strlit("minutes");
    reveal_strlit(" minute");
    reveal_strlit(" minutes");
    reveal_strlit("second");
    reveal_strlit("seconds");
    reveal_strlit(" second");
    reveal_strlit(" seconds");
    let h = span_hours(total);
    let m = span_minutes(total);
    let s = span_seconds(total);
    assert(duration_text(total) =~= signed_decimal(h) + (if h > 1 {
        " hours"@
    } else {
        " hour"@
    }) + " "@ + signed_decimal(m) + (if m > 1 {
        " minutes"@
    } else {
        " minute"@
    }) + " "@ + signed_decimal(s) + (if s > 1 {
        " seconds"@
    } else {
        " second"@
    }));
}

} // verus!
