use owasu::domain::seatalk::SeatalkText;
use owasu::model::alertmanager::{
    calculate_duration, format_duration, is_known_status, render_alert, Alert, AlertManagerRequestBody, Annotations,
    Labels,
};

fn alert(status: &str, starts_at: &str, ends_at: &str) -> Alert {
    Alert {
        status: status.to_string(),
        labels: Labels {
            alertname: "HighLoad".to_string(),
            instance: "node-1:9100".to_string(),
            severity: "critical".to_string(),
        },
        annotations: Annotations {
            description: "load above 10".to_string(),
            summary: "node is busy".to_string(),
        },
        starts_at: starts_at.to_string(),
        ends_at: ends_at.to_string(),
        generator_url: "http://prometheus/graph".to_string(),
        fingerprint: "abc123".to_string(),
    }
}

fn body(alerts: Vec<Alert>) -> AlertManagerRequestBody {
    AlertManagerRequestBody {
        receiver: "seatalk".to_string(),
        status: "firing".to_string(),
        alerts,
        ..Default::default()
    }
}

const FIRING_BLOCK: &str = "Name: HighLoad \nInstance: node-1:9100\nStart: 2022-01-01T00:00:00Z\nStatus: FIRING\nSummary: node is busy\nDescription: load above 10\n\n";

const RESOLVED_BLOCK: &str = "Name: HighLoad \nInstance: node-1:9100\nStart At: 2022-01-01T00:00:00Z\nEnd At: 2022-01-01T01:01:05Z\nStatus: RESOLVED\nSummary: node is busy\nDescription: load above 10\nDuration: 1 hour 1 minute 5 seconds\n\n";

#[test]
fn duration_of_one_hour_one_minute_five_seconds() {
    assert_eq!(format_duration(3665), "1 hour 1 minute 5 seconds");
}

#[test]
fn duration_plural_units_above_one() {
    assert_eq!(format_duration(7322), "2 hours 2 minutes 2 seconds");
}

#[test]
fn duration_zero_is_singular() {
    assert_eq!(format_duration(0), "0 hour 0 minute 0 second");
}

#[test]
fn duration_negative_span() {
    assert_eq!(format_duration(-3665), "-1 hour -1 minute -5 second");
}

#[test]
fn duration_extreme_span() {
    assert_eq!(
        format_duration(i64::MIN),
        "-2562047788015215 hour -30 minute -8 second"
    );
}

#[test]
fn span_parts_add_back_up() {
    for total in [-86_401i64, -3601, -59, 0, 1, 59, 60, 3599, 3600, 90_061] {
        let text = format_duration(total);
        let parts: Vec<i64> = text
            .split(' ')
            .filter_map(|word| word.parse::<i64>().ok())
            .collect();
        assert_eq!(parts.len(), 3);
        assert_eq!(parts[0] * 3600 + parts[1] * 60 + parts[2], total);
        assert!(parts[1].abs() < 60 && parts[2].abs() < 60);
    }
}

#[test]
fn calculate_duration_between_rfc3339_instants() {
    assert_eq!(
        calculate_duration("2022-01-01T00:00:00Z", "2022-01-01T01:01:05Z"),
        "1 hour 1 minute 5 seconds"
    );
}

#[test]
fn calculate_duration_across_offsets() {
    assert_eq!(
        calculate_duration("2022-01-01T08:00:00+08:00", "2022-01-01T00:00:30Z"),
        "0 hour 0 minute 30 seconds"
    );
}

#[test]
fn calculate_duration_truncates_fractions() {
    assert_eq!(
        calculate_duration("2022-01-01T00:00:00.900Z", "2022-01-01T00:00:02.100Z"),
        "0 hour 0 minute 1 second"
    );
}

#[test]
fn calculate_duration_before_the_start() {
    assert_eq!(
        calculate_duration("2022-01-01T01:00:00Z", "2022-01-01T00:00:00Z"),
        "-1 hour 0 minute 0 second"
    );
}

#[test]
fn known_statuses() {
    assert!(is_known_status("FIRING"));
    assert!(is_known_status("RESOLVED"));
    assert!(!is_known_status("firing"));
    assert!(!is_known_status("PENDING"));
}

#[test]
fn uppercase_status_of_an_alert() {
    assert_eq!(alert("Resolved", "", "").uppercase_status(), "RESOLVED");
    assert_eq!(alert("fırıng", "", "").uppercase_status(), "FIRING");
}

#[test]
fn render_firing_alert() {
    let a = alert("firing", "2022-01-01T00:00:00Z", "0001-01-01T00:00:00Z");
    assert_eq!(render_alert(&a, "FIRING", "ignored"), FIRING_BLOCK);
}

#[test]
fn render_resolved_alert() {
    let a = alert("resolved", "2022-01-01T00:00:00Z", "2022-01-01T01:01:05Z");
    assert_eq!(render_alert(&a, "RESOLVED", "1 hour 1 minute 5 seconds"), RESOLVED_BLOCK);
}

#[test]
fn render_unknown_status() {
    let a = alert("pending", "", "");
    assert_eq!(render_alert(&a, "PENDING", "1 hour"), "null");
}

#[test]
fn text_of_firing_and_resolved_alerts() {
    let b = body(vec![
        alert("firing", "2022-01-01T00:00:00Z", "0001-01-01T00:00:00Z"),
        alert("resolved", "2022-01-01T00:00:00Z", "2022-01-01T01:01:05Z"),
    ]);
    let expected = format!("ALERT 🔥 🔥 🔥 \n\n{}{}", FIRING_BLOCK, RESOLVED_BLOCK);
    assert_eq!(b.generate_seatalk_text(), expected);
    assert_eq!(b.checked_seatalk_text(), Some(expected));
}

#[test]
fn text_uppercases_the_status() {
    let b = body(vec![alert("FiRiNg", "2022-01-01T00:00:00Z", "")]);
    assert_eq!(
        b.generate_seatalk_text(),
        format!("ALERT 🔥 🔥 🔥 \n\n{}", FIRING_BLOCK)
    );
}

#[test]
fn text_uppercases_by_unicode_rules() {
    let b = body(vec![alert("fırıng", "2022-01-01T00:00:00Z", "")]);
    assert_eq!(
        b.generate_seatalk_text(),
        format!("ALERT 🔥 🔥 🔥 \n\n{}", FIRING_BLOCK)
    );
}

#[test]
fn text_of_unknown_status_is_null() {
    let b = body(vec![alert("silenced", "", "")]);
    assert_eq!(b.generate_seatalk_text(), "ALERT 🔥 🔥 🔥 \n\nnull");
}

#[test]
fn text_of_no_alert_is_the_banner() {
    let b = body(vec![]);
    assert_eq!(b.generate_seatalk_text(), "ALERT 🔥 🔥 🔥 \n\n");
}

#[test]
fn checked_text_refuses_bad_resolved_timestamps() {
    let b = body(vec![
        alert("firing", "2022-01-01T00:00:00Z", ""),
        alert("resolved", "2022-01-01T00:00:00Z", "not a time"),
    ]);
    assert_eq!(b.checked_seatalk_text(), None);
}

#[test]
fn checked_text_ignores_timestamps_of_firing_alerts() {
    let b = body(vec![alert("firing", "not a time", "nor this")]);
    assert!(b.checked_seatalk_text().is_some());
}

#[test]
fn alerts_are_told_one_after_another() {
    let first = vec![alert("firing", "2022-01-01T00:00:00Z", "")];
    let rest = vec![
        alert("resolved", "2022-01-01T00:00:00Z", "2022-01-01T01:01:05Z"),
        alert("other", "", ""),
    ];
    let mut all = first.clone();
    all.extend(rest.clone());
    let banner = "ALERT 🔥 🔥 🔥 \n\n";
    let whole = body(all).generate_seatalk_text();
    let a = body(first).generate_seatalk_text();
    let b = body(rest).generate_seatalk_text();
    assert_eq!(whole, format!("{}{}", a, &b[banner.len()..]));
}
