use owasu::configuration::SeatalkConfig;
use owasu::domain::seatalk::schema::{Message, SeatalkResponse};
use owasu::domain::seatalk::{Seatalk, SeatalkText};
use owasu::model::alertmanager::{Alert, AlertManagerRequestBody};
use owasu::model::uptime_kuma::UptimeKumaRequestBody;

#[test]
fn kuma_text() {
    let body = UptimeKumaRequestBody { msg: "[web] is down".to_string() };
    assert_eq!(
        body.generate_seatalk_text(),
        "ALERT 🔥 🔥 🔥 \n\nKuma said... \n[web] is down\n"
    );
}

#[test]
fn kuma_text_of_empty_message() {
    let body = UptimeKumaRequestBody::default();
    assert_eq!(body.generate_seatalk_text(), "ALERT 🔥 🔥 🔥 \n\nKuma said... \n\n");
}

#[test]
fn message_new_is_plain_text() {
    let m = Message::new("hello".to_string());
    assert_eq!(m.tag, "text");
    assert_eq!(m.text.content, "hello");
    assert_eq!(m.text.mentioned_list, None);
    assert_eq!(m.text.mentioned_email_list, None);
    assert_eq!(m.text.at_all, Some(false));
}

#[test]
fn error_check_is_positive_code() {
    assert!(!SeatalkResponse { code: 0, msg: "ok".to_string() }.error_check());
    assert!(SeatalkResponse { code: 1, msg: "bad".to_string() }.error_check());
    assert!(SeatalkResponse { code: 7007, msg: "bad".to_string() }.error_check());
    assert!(!SeatalkResponse { code: -1, msg: "odd".to_string() }.error_check());
}

#[test]
fn seatalk_posts_to_the_group_webhook() {
    let seatalk = Seatalk::new(SeatalkConfig::new("group42".to_string()));
    assert_eq!(seatalk.base_url(), "https://openapi.seatalk.io/webhook/group/group42");
}

#[test]
fn seatalk_webhook_of_default_config() {
    let seatalk = Seatalk::new(SeatalkConfig::default());
    assert_eq!(seatalk.base_url(), "https://openapi.seatalk.io/webhook/group/");
}

#[test]
fn seatalk_message_carries_the_payload_text() {
    let seatalk = Seatalk::new(SeatalkConfig::new("g".to_string()));
    let body = UptimeKumaRequestBody { msg: "up".to_string() };
    let m = seatalk.prepare_message(&body);
    assert_eq!(m, Message::new("ALERT 🔥 🔥 🔥 \n\nKuma said... \nup\n".to_string()));
}

#[test]
fn seatalk_clone_keeps_the_webhook() {
    let seatalk = Seatalk::new(SeatalkConfig::new("g".to_string()));
    let copy = seatalk.clone();
    assert_eq!(copy.base_url(), seatalk.base_url());
}

#[test]
fn seatalk_client_settings() {
    let seatalk = Seatalk::new(SeatalkConfig::new("g".to_string()));
    assert_eq!(seatalk.user_agent(), "owasu/0.1.0");
    assert_eq!(seatalk.connect_timeout_secs(), 5);
}

#[test]
fn checked_message_for_kuma() {
    let seatalk = Seatalk::new(SeatalkConfig::new("g".to_string()));
    let body = UptimeKumaRequestBody { msg: "down".to_string() };
    assert!(body.is_text_ready());
    assert_eq!(
        seatalk.checked_message(&body),
        Some(Message::new("ALERT 🔥 🔥 🔥 \n\nKuma said... \ndown\n".to_string()))
    );
}

#[test]
fn checked_message_refuses_unreadable_resolved_alert() {
    let seatalk = Seatalk::new(SeatalkConfig::new("g".to_string()));
    let body = AlertManagerRequestBody {
        alerts: vec![Alert {
            status: "resolved".to_string(),
            starts_at: "2022-01-01T00:00:00Z".to_string(),
            ends_at: "later".to_string(),
            ..Default::default()
        }],
        ..Default::default()
    };
    assert!(!body.is_text_ready());
    assert_eq!(seatalk.checked_message(&body), None);
}
