use utalk_bot::conversation::{is_answerable, read_message};
use utalk_bot::json::JsonValue;
use utalk_bot::webhook::{
    allowed_channels, channel_allowed, decide_webhook, is_tester, summarize_webhook, WebhookDecision,
};

fn to_json(v: &serde_json::Value) -> JsonValue {
    match v {
        serde_json::Value::Null => JsonValue::Null,
        serde_json::Value::Bool(b) => JsonValue::Bool(*b),
        serde_json::Value::Number(n) => JsonValue::Number(n.to_string()),
        serde_json::Value::String(s) => JsonValue::Str(s.clone()),
        serde_json::Value::Array(a) => JsonValue::Array(a.iter().map(to_json).collect()),
        serde_json::Value::Object(o) => {
            JsonValue::Object(o.iter().map(|(k, v)| (k.clone(), to_json(v))).collect())
        }
    }
}

fn parse(text: &str) -> JsonValue {
    to_json(&serde_json::from_str::<serde_json::Value>(text).unwrap())
}

const MESSAGE_EVENT: &str = r#"{
  "Type": "Message",
  "Payload": {
    "Type": "Message",
    "Content": {
      "Id": "msg-1",
      "Source": "Contact",
      "MessageType": "Text",
      "Content": "Tenho um poço de 60 metros",
      "Chat": {
        "Id": "chat-9",
        "Channel": { "Name": "WhatsApp Vendas", "Id": "ch-1" },
        "Contact": { "Name": "Maria", "PhoneNumber": "+55 (31) 99999-0000" },
        "Tags": [ { "name": "Lead" }, { "Name": "Quente" }, { "id": "x" } ]
      }
    }
  }
}"#;

const CHAT_EVENT: &str = r#"{
  "Payload": {
    "Type": "Chat",
    "Content": {
      "Id": "chat-7",
      "Channel": { "Name": "Instagram", "Id": "ch-2" },
      "Contact": { "Name": "João", "PhoneNumber": "5531988887777" },
      "OrganizationMember": { "Id": "op-1" },
      "LastMessage": {
        "Id": "msg-2",
        "Source": "Contact",
        "MessageType": "Audio",
        "File": { "Url": "https://cdn/audio.ogg" }
      }
    }
  }
}"#;

#[test]
fn message_event_is_summarized() {
    let p = parse(MESSAGE_EVENT);
    let s = summarize_webhook(&p);
    assert_eq!(s.payload_type, "Message");
    assert_eq!(s.channel_name, "WhatsApp Vendas");
    assert_eq!(s.channel_id, "ch-1");
    assert_eq!(s.contact_name, "Maria");
    assert_eq!(s.phone, "+55 (31) 99999-0000");
    assert_eq!(s.text, "Tenho um poço de 60 metros");
    assert_eq!(s.tag_names, vec!["Lead".to_string(), "Quente".to_string()]);
    assert!(!s.has_human_member);
    assert_eq!(s.chat_id, "chat-9");
}

#[test]
fn chat_event_is_summarized() {
    let p = parse(CHAT_EVENT);
    let s = summarize_webhook(&p);
    assert_eq!(s.payload_type, "Chat");
    assert_eq!(s.channel_name, "Instagram");
    assert_eq!(s.channel_id, "ch-2");
    assert_eq!(s.contact_name, "João");
    assert_eq!(s.phone, "5531988887777");
    assert_eq!(s.text, "[Mídia / Áudio / Sistema]");
    assert!(s.tag_names.is_empty());
    assert!(s.has_human_member);
    assert_eq!(s.chat_id, "chat-7");
}

#[test]
fn empty_payload_uses_defaults() {
    let s = summarize_webhook(&parse("{}"));
    assert_eq!(s.channel_name, "Canal Geral");
    assert_eq!(s.channel_id, "N/A");
    assert_eq!(s.contact_name, "Cliente");
    assert_eq!(s.phone, "N/A");
    assert_eq!(s.chat_id, "");
    assert!(!s.has_human_member);
}

#[test]
fn member_id_marks_a_human_attendant() {
    let p = parse(r#"{"Payload":{"Type":"Chat","Content":{"Id":"c","memberId":"","MemberId":"m-1"}}}"#);
    assert!(summarize_webhook(&p).has_human_member);
    let q = parse(r#"{"Payload":{"Type":"Chat","Content":{"Id":"c","MemberId":""}}}"#);
    assert!(!summarize_webhook(&q).has_human_member);
}

#[test]
fn messages_are_read_from_the_event() {
    let m = read_message(&parse(MESSAGE_EVENT));
    assert_eq!(m.msg_id, "msg-1");
    assert_eq!(m.source, "Contact");
    assert_eq!(m.msg_type, "Text");
    assert_eq!(m.chat_id, "chat-9");
    assert_eq!(m.direct_audio_url, None);
    assert!(is_answerable(&m));

    let a = read_message(&parse(CHAT_EVENT));
    assert_eq!(a.msg_id, "msg-2");
    assert_eq!(a.msg_type, "Audio");
    assert_eq!(a.chat_id, "chat-7");
    assert_eq!(a.direct_audio_url, Some("https://cdn/audio.ogg".to_string()));
    assert!(is_answerable(&a));
}

#[test]
fn messages_of_the_operator_are_not_answered() {
    let p = parse(r#"{"Payload":{"Type":"Message","Content":{"Source":"Member","MessageType":"Text","Chat":{"Id":"c1"}}}}"#);
    assert!(!is_answerable(&read_message(&p)));
    let q = parse(r#"{"Payload":{"Type":"Message","Content":{"Source":"Contact","MessageType":"Text"}}}"#);
    assert!(!is_answerable(&read_message(&q)));
}

#[test]
fn paused_webhooks_serve_no_channel() {
    let synced = parse(
        r#"[{"paused": false, "for_channels": ["ch-1", 3, "ch-2"]},
            {"paused": true, "for_channels": ["ch-9"]},
            {"forChannels": ["ch-3"]}]"#,
    );
    let allowed = allowed_channels(&synced);
    assert_eq!(allowed, vec!["ch-1".to_string(), "ch-2".to_string(), "ch-3".to_string()]);
    assert!(channel_allowed(&allowed, "ch-3"));
    assert!(!channel_allowed(&allowed, "ch-9"));
    assert!(channel_allowed(&Vec::new(), "anything"));
    assert!(allowed_channels(&parse(r#"{"x":1}"#)).is_empty());
}

#[test]
fn testers_match_by_trailing_digits() {
    let phones = vec!["(31) 99999-0000".to_string(), "".to_string()];
    assert!(is_tester("+55 31 99999-0000", &phones));
    assert!(is_tester("99990000", &phones));
    assert!(!is_tester("+55 31 98888-0000", &phones));
    assert!(!is_tester("123", &Vec::new()));
    // a sender without digits matches any configured phone
    assert!(is_tester("N/A", &phones));
}

#[test]
fn webhook_decisions() {
    assert!(matches!(decide_webhook(false, true, false, true, false, false), WebhookDecision::BotPaused));
    assert!(matches!(decide_webhook(true, false, false, true, false, false), WebhookDecision::ChannelNotAllowed));
    assert!(matches!(decide_webhook(true, true, true, false, false, false), WebhookDecision::NotATester));
    assert!(matches!(decide_webhook(true, true, false, false, true, false), WebhookDecision::HumanAttending));
    assert!(matches!(decide_webhook(true, true, false, false, false, true), WebhookDecision::HumanAttending));
    assert!(matches!(
        decide_webhook(true, true, true, true, true, true),
        WebhookDecision::Answer { forced_for_tester: true }
    ));
    assert!(matches!(
        decide_webhook(true, true, false, false, false, false),
        WebhookDecision::Answer { forced_for_tester: false }
    ));
}
