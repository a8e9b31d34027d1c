use std::hash::{Hash, Hasher};
use utalk_bot::assistant::{ToolKind, GEMINI_UNAVAILABLE};
use utalk_bot::config::AppConfig;
use utalk_bot::conversation::{StageConfig, QUOTE_TAG_ID};
use utalk_bot::flow::{flow_start, flow_step, hash_reply, Flow, FlowAction, FlowEvent, Phase};
use utalk_bot::gemini::{gemini_start, gemini_step, tool_name, GeminiAction, GeminiEvent, GeminiFlow};
use utalk_bot::json::JsonValue;
use utalk_bot::prompts::TEST_RESET_CONFIRMATION;
use utalk_bot::utalk::UtalkOperator;

fn to_json(v: &serde_json::Value) -> JsonValue {
    match v {
        serde_json::Value::Null => JsonValue::Null,
        serde_json::Value::Bool(b) => JsonValue::Bool(*b),
        serde_json::Value::Number(n) => JsonValue::Number(n.to_string()),
        serde_json::Value::String(s) => JsonValue::Str(s.clone()),
        serde_json::Value::Array(a) => JsonValue::Array(a.iter().map(to_json).collect()),
        serde_json::Value::Object(o) => {
            JsonValue::Object(o.iter().map(|(k, v)| (k.clone(), to_json(v))).collect())
        }
    }
}

fn settings() -> AppConfig {
    let mut c = AppConfig::from_env_values(None, None, None, None, None, None, None);
    c.test_allowed_phones = vec!["(11) 98888-7777".to_string()];
    c.rotation_enabled = true;
    c.rotation_trigger_keyword = "[TRANSFERIR]".to_string();
    c.rotation_operator_ids = vec!["op_a".to_string(), "op_b".to_string()];
    c
}

fn parse(text: &str) -> JsonValue {
    to_json(&serde_json::from_str::<serde_json::Value>(text).unwrap())
}

fn message(source: &str, msg_type: &str, content: &str, phone: &str) -> JsonValue {
    let mut c = serde_json::Map::new();
    c.insert("Id".to_string(), serde_json::Value::String("msg1".to_string()));
    c.insert("Source".to_string(), serde_json::Value::String(source.to_string()));
    c.insert("MessageType".to_string(), serde_json::Value::String(msg_type.to_string()));
    c.insert("Content".to_string(), serde_json::Value::String(content.to_string()));
    c.insert("Chat".to_string(), serde_json::from_str(r#"{ "Id": "chat1" }"#).unwrap());
    let mut contact = serde_json::Map::new();
    contact.insert("Name".to_string(), serde_json::Value::String("Ana".to_string()));
    contact.insert("PhoneNumber".to_string(), serde_json::Value::String(phone.to_string()));
    c.insert("Contact".to_string(), serde_json::Value::Object(contact));
    let mut payload = serde_json::Map::new();
    payload.insert("Type".to_string(), serde_json::Value::String("Message".to_string()));
    payload.insert("Content".to_string(), serde_json::Value::Object(c));
    let mut root = serde_json::Map::new();
    root.insert("Payload".to_string(), serde_json::Value::Object(payload));
    to_json(&serde_json::Value::Object(root))
}

fn step(flow: Flow, event: FlowEvent, cfg: &AppConfig) -> (Flow, FlowAction) {
    flow_step(flow, event, cfg)
}

/// Starts the handling and, when the message is handled, reports the
/// settings as read.
fn start(payload: &JsonValue, cfg: &AppConfig) -> (Flow, FlowAction) {
    let (flow, action) = flow_start(payload);
    match action {
        FlowAction::ReadSettings => flow_step(flow, FlowEvent::SettingsRead, cfg),
        other => (flow, other),
    }
}

#[test]
fn messages_not_from_the_contact_are_dropped() {
    let cfg = settings();
    let (flow, action) = start(&message("Member", "Text", "oi", "+55 11 90000-0000"), &cfg);
    assert!(matches!(action, FlowAction::Finish));
    assert_eq!(flow.phase, Phase::Finished);
}

#[test]
fn blank_text_is_not_answered() {
    let cfg = settings();
    let (_, action) = start(&message("Contact", "Text", "   ", "+55 11 90000-0000"), &cfg);
    assert!(matches!(action, FlowAction::Finish));
}

#[test]
fn first_contact_is_greeted_with_the_first_stage_text() {
    let cfg = settings();
    let (flow, action) = start(&message("Contact", "Text", "Olá", "+55 11 90000-0000"), &cfg);
    assert!(matches!(&action, FlowAction::LoadStage { chat_id } if chat_id == "chat1"));
    let (flow, action) =
        step(flow, FlowEvent::StageLoaded { stage: "STAGE_1".to_string(), first_contact: true }, &cfg);
    assert!(matches!(&action, FlowAction::EnterStage { chat_id, stage } if chat_id == "chat1" && stage == "STAGE_1"));
    let config = Some(StageConfig {
        stage_key: "STAGE_1".to_string(),
        title: "1".to_string(),
        text_message: "Bem-vindo".to_string(),
        audio_url: "".to_string(),
    });
    let (flow, action) = step(flow, FlowEvent::StageConfigLoaded { config }, &cfg);
    assert!(matches!(&action, FlowAction::SendText { chat_id, text } if chat_id == "chat1" && text == "Bem-vindo"));
    let (flow, action) = step(flow, FlowEvent::Done, &cfg);
    assert!(matches!(action, FlowAction::Finish));
    assert_eq!(flow.phase, Phase::Finished);
}

#[test]
fn an_expected_answer_moves_to_the_next_stage() {
    let cfg = settings();
    let (flow, _) = start(&message("Contact", "Text", "Tenho um Poço", "+55 11 90000-0000"), &cfg);
    let (flow, action) =
        step(flow, FlowEvent::StageLoaded { stage: "STAGE_1".to_string(), first_contact: false }, &cfg);
    assert!(matches!(&action, FlowAction::EnterStage { stage, .. } if stage == "STAGE_2"));
    assert_eq!(flow.default_audio, "/assets/vendas_leandro_puck.mp3");
    let (flow, action) = step(flow, FlowEvent::StageConfigLoaded { config: None }, &cfg);
    assert!(matches!(&action, FlowAction::AskAssistant { chat_id, prompt }
        if chat_id == "chat1" && prompt.starts_with("Tenho um Poço\n[INSTRUÇÃO DE ETAPA: O cliente está na etapa 'STAGE_1'")));
    assert_eq!(flow.phase, Phase::AwaitReply);
}

#[test]
fn a_tester_reset_skips_the_assistant() {
    let cfg = settings();
    let (flow, action) = start(&message("Contact", "Text", "TUBARAO_TESTES", "+55 (11) 98888-7777"), &cfg);
    assert!(flow.tester);
    assert!(matches!(&action, FlowAction::ResetChat { chat_id, stage } if chat_id == "chat1" && stage == "STAGE_1"));
    let (flow, action) = step(flow, FlowEvent::Done, &cfg);
    assert!(matches!(&action, FlowAction::SendText { text, .. } if text == TEST_RESET_CONFIRMATION));
    let (_, action) = step(flow, FlowEvent::Done, &cfg);
    assert!(matches!(action, FlowAction::Finish));
}

#[test]
fn the_reset_command_is_plain_text_for_others() {
    let cfg = settings();
    let (_, action) = start(&message("Contact", "Text", "tubarao_testes", "+55 11 90000-0000"), &cfg);
    assert!(matches!(action, FlowAction::LoadStage { .. }));
}

#[test]
fn audio_reply_and_hand_over_to_an_online_attendant() {
    let cfg = settings();
    let (flow, action) = start(&message("Contact", "Audio", "", "+55 11 90000-0000"), &cfg);
    assert!(matches!(&action, FlowAction::FetchAudio { direct_url: None, msg_id } if msg_id == "msg1"));
    let (flow, action) = step(flow, FlowEvent::AudioFetched { ok: true }, &cfg);
    assert!(matches!(action, FlowAction::LoadStage { .. }));
    assert_eq!(flow.prompt, "[Áudio enviado pelo cliente]");
    let (flow, action) =
        step(flow, FlowEvent::StageLoaded { stage: "STAGE_3".to_string(), first_contact: false }, &cfg);
    assert!(matches!(action, FlowAction::AskAssistant { .. }));
    let (flow, action) = step(
        flow,
        FlowEvent::AssistantReplied { reply: Some("Vou te passar ao especialista [TRANSFERIR]".to_string()) },
        &cfg,
    );
    assert!(matches!(&action, FlowAction::HashReply { text } if text == "Vou te passar ao especialista"));
    assert!(flow.transfer);
    let (flow, action) = step(flow, FlowEvent::ReplyHashed { hash: 255 }, &cfg);
    assert!(matches!(&action, FlowAction::SendVoiceReply { url, cache_file, .. }
        if url == "https://tubaraoia.lysia.tech/assets/audio_cache/ff.mp3" && cache_file == "assets/audio_cache/ff.mp3"));
    let (flow, action) = step(flow, FlowEvent::Done, &cfg);
    assert!(matches!(action, FlowAction::FetchOnlineMembers));
    let (flow, action) = step(flow, FlowEvent::OnlineMembers { ids: Some(vec!["op_b".to_string()]) }, &cfg);
    assert!(matches!(&action, FlowAction::PickOperator { candidates } if candidates == &vec!["op_b".to_string()]));
    let (flow, action) = step(flow, FlowEvent::OperatorPicked { id: Some("op_b".to_string()) }, &cfg);
    assert!(matches!(action, FlowAction::FetchOperators));
    let ops = vec![UtalkOperator {
        id: "op_b".to_string(),
        name: "Bia".to_string(),
        email: "".to_string(),
        active: true,
        is_online: true,
    }];
    let (flow, action) = step(flow, FlowEvent::OperatorsFetched { ops: Some(ops) }, &cfg);
    assert!(matches!(&action, FlowAction::TransferChat { chat_id, member_id } if chat_id == "chat1" && member_id == "op_b"));
    let (flow, action) = step(flow, FlowEvent::Done, &cfg);
    assert!(matches!(&action, FlowAction::RecordTransfer { member_id, member_name, .. }
        if member_id == "transferred" && member_name == "Bia"));
    let (flow, action) = step(flow, FlowEvent::Done, &cfg);
    assert!(matches!(action, FlowAction::FetchTags));
    let tags = parse(r#"{ "items": [
        { "id": "t1", "name": "Atendente BIA" },
        { "id": "t2", "name": "Outro" }
    ]}"#);
    let (flow, action) = step(flow, FlowEvent::TagsFetched { tags }, &cfg);
    assert!(matches!(&action, FlowAction::PutTags { tag_ids, .. }
        if tag_ids == &vec![QUOTE_TAG_ID.to_string(), "t1".to_string()]));
    let (flow, action) = step(flow, FlowEvent::Done, &cfg);
    assert!(matches!(action, FlowAction::Finish));
    assert_eq!(flow.phase, Phase::Finished);
}

#[test]
fn hand_over_without_attendants_goes_to_the_sales_team() {
    let cfg = settings();
    let (flow, _) = start(&message("Contact", "Text", "quero orçamento", "+55 11 90000-0000"), &cfg);
    let (flow, _) = step(flow, FlowEvent::StageLoaded { stage: "STAGE_3".to_string(), first_contact: false }, &cfg);
    let (flow, action) =
        step(flow, FlowEvent::AssistantReplied { reply: Some("Certo! [TRANSFERIR]".to_string()) }, &cfg);
    assert!(matches!(&action, FlowAction::SendText { text, .. } if text == "Certo!"));
    let (flow, _) = step(flow, FlowEvent::Done, &cfg);
    let (flow, action) = step(flow, FlowEvent::OnlineMembers { ids: None }, &cfg);
    assert!(matches!(&action, FlowAction::PickOperator { candidates } if candidates.len() == 2));
    let (_, action) = step(flow, FlowEvent::OperatorPicked { id: None }, &cfg);
    assert!(matches!(&action, FlowAction::RecordTransfer { member_name, .. } if member_name == "Equipe de Vendas"));
}

#[test]
fn a_failed_reply_ends_the_handling() {
    let cfg = settings();
    let (flow, _) = start(&message("Contact", "Text", "dúvida", "+55 11 90000-0000"), &cfg);
    let (flow, _) = step(flow, FlowEvent::StageLoaded { stage: "STAGE_3".to_string(), first_contact: false }, &cfg);
    let (flow, action) = step(flow, FlowEvent::AssistantReplied { reply: None }, &cfg);
    assert!(matches!(action, FlowAction::Finish));
    assert_eq!(flow.phase, Phase::Finished);
}

#[test]
fn an_unexpected_event_ends_the_handling() {
    let cfg = settings();
    let (flow, _) = start(&message("Contact", "Text", "oi", "+55 11 90000-0000"), &cfg);
    let (_, action) = step(flow, FlowEvent::Done, &cfg);
    assert!(matches!(action, FlowAction::Finish));
}

fn gstep(f: GeminiFlow, e: GeminiEvent) -> (GeminiFlow, GeminiAction) {
    gemini_step(f, e)
}

#[test]
fn gemini_models_are_tried_in_turn() {
    let (f, a) = gemini_start("  ", "KEY");
    assert!(matches!(&a, GeminiAction::CallModel { url, pause_first: false }
        if url == "https://generativelanguage.googleapis.com/v1beta/models/gemini-3.1-flash-lite:generateContent?key=KEY"));
    let (f, a) = gstep(f, GeminiEvent::ModelReplied { data: None });
    assert!(matches!(&a, GeminiAction::CallModel { url, pause_first: false } if url.contains("gemini-2.5-flash")));
    let overloaded = parse(r#"{ "error": { "code": 503 } }"#);
    let (f, a) = gstep(f, GeminiEvent::ModelReplied { data: Some(overloaded) });
    assert!(matches!(&a, GeminiAction::CallModel { url, pause_first: true } if url.contains("gemini-1.5-flash")));
    let (_, a) = gstep(f, GeminiEvent::ModelReplied { data: None });
    assert!(matches!(&a, GeminiAction::Fail { error } if error == GEMINI_UNAVAILABLE));
}

#[test]
fn gemini_tool_call_result_goes_back_to_the_model() {
    let (f, _) = gemini_start("gemini-x", "K");
    let answer = parse(r#"{ "candidates": [{ "content": { "parts": [
        { "functionCall": { "name": "search_past_conversations", "args": { "query": "bomba" } } },
        { "text": "Resposta do modelo" }
    ]}}]}"#);
    let (f, a) = gstep(f, GeminiEvent::ModelReplied { data: Some(answer) });
    assert!(matches!(a, GeminiAction::RunTool { tool: ToolKind::SearchConversations, part_index: 0 }));
    let (f, a) = gstep(f, GeminiEvent::ToolDone { result: Ok("{\"results\":[]}".to_string()) });
    assert!(matches!(&a, GeminiAction::SendToolResult { url, tool: ToolKind::SearchConversations, result }
        if url.contains("models/gemini-x:") && result == "{\"results\":[]}"));
    let (_, a) = gstep(f, GeminiEvent::FinalAnswer { text: Ok(None) });
    assert!(matches!(&a, GeminiAction::Reply { text } if text == "Resposta do modelo"));
    assert_eq!(tool_name(ToolKind::SearchConversations), "search_past_conversations");
}

#[test]
fn gemini_answer_without_parts_is_unexpected() {
    let (f, _) = gemini_start("", "K");
    let (_, a) = gstep(f, GeminiEvent::ModelReplied { data: Some(parse(r#"{ "candidates": [] }"#)) });
    assert!(matches!(a, GeminiAction::Unexpected));
}

#[test]
fn gemini_tool_failure_fails_the_request() {
    let (f, _) = gemini_start("", "K");
    let answer = parse(r#"{ "candidates": [{ "content": { "parts": [
        { "functionCall": { "name": "request_external_api", "args": {} } }
    ]}}]}"#);
    let (f, a) = gstep(f, GeminiEvent::ModelReplied { data: Some(answer) });
    assert!(matches!(a, GeminiAction::RunTool { tool: ToolKind::ExternalApi, part_index: 0 }));
    let (_, a) = gstep(f, GeminiEvent::ToolDone { result: Err("falhou".to_string()) });
    assert!(matches!(&a, GeminiAction::Fail { error } if error == "falhou"));
}

#[test]
fn settings_are_read_only_for_handled_messages() {
    let (_, action) = flow_start(&message("Contact", "Text", "oi", "+55 11 90000-0000"));
    assert!(matches!(action, FlowAction::ReadSettings));
    let (_, action) = flow_start(&message("Bot", "Text", "oi", "+55 11 90000-0000"));
    assert!(matches!(action, FlowAction::Finish));
}

fn std_hash(text: &str) -> u64 {
    let mut h = std::collections::hash_map::DefaultHasher::new();
    text.to_string().hash(&mut h);
    h.finish()
}

#[test]
fn hashing_a_reply_reports_its_hash() {
    assert!(matches!(hash_reply("Olá"), FlowEvent::ReplyHashed { hash } if hash == std_hash("Olá")));
    let a = match hash_reply("resposta A") { FlowEvent::ReplyHashed { hash } => hash, _ => 0 };
    let b = match hash_reply("resposta B") { FlowEvent::ReplyHashed { hash } => hash, _ => 0 };
    assert_ne!(a, b);
}
