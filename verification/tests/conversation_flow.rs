use utalk_bot::catalog::{
    chat_stage_or_first, default_audio_bank_items, default_stage_configs, merge_audio_item, merge_stage,
    next_rotation_pick, AudioBankItem,
};
use utalk_bot::conversation::{
    audio_cache_paths, default_stage_audio, detect_transfer, full_audio_url, is_blank_prompt,
    is_expected_stage_answer, is_reset_command, next_stage, plan_stage_step, retain_online,
    select_tag_ids, stage_prompt, static_stage_reply, user_prompt, StageConfig, StageStep,
    StaticReply,
};
use utalk_bot::history::{chat_context, HistoryRow, Instant};
use utalk_bot::json::JsonValue;
use utalk_bot::text::usize_to_decimal;

fn to_json(v: &serde_json::Value) -> JsonValue {
    match v {
        serde_json::Value::Null => JsonValue::Null,
        serde_json::Value::Bool(b) => JsonValue::Bool(*b),
        serde_json::Value::Number(n) => JsonValue::Number(n.to_string()),
        serde_json::Value::String(s) => JsonValue::Str(s.clone()),
        serde_json::Value::Array(a) => JsonValue::Array(a.iter().map(to_json).collect()),
        serde_json::Value::Object(o) => {
            JsonValue::Object(o.iter().map(|(k, v)| (k.clone(), to_json(v))).collect())
        }
    }
}

fn stage_cfg(text: &str, audio: &str) -> Option<StageConfig> {
    Some(StageConfig {
        stage_key: "STAGE_2".to_string(),
        title: "t".to_string(),
        text_message: text.to_string(),
        audio_url: audio.to_string(),
    })
}

#[test]
fn prompts_for_each_kind_of_message() {
    assert_eq!(user_prompt("Text", "oi", "Ana", false), "oi");
    assert_eq!(user_prompt("Audio", "", "Ana", true), "[Áudio enviado pelo cliente]");
    assert_eq!(user_prompt("Audio", "", "Ana", false), "O cliente 'Ana' enviou um áudio.");
    assert_eq!(
        user_prompt("Image", "", "Ana", false),
        "O cliente 'Ana' enviou uma imagem. Atenda-o cordialmente."
    );
    assert_eq!(user_prompt("Sticker", "x", "Ana", false), "x");
    assert!(is_blank_prompt("  \n", false));
    assert!(!is_blank_prompt("  \n", true));
    assert!(!is_blank_prompt(" a ", false));
}

#[test]
fn reset_command_only_for_testers() {
    assert!(is_reset_command(true, "quero TUBARAO_TESTES agora"));
    assert!(!is_reset_command(false, "tubarao_testes"));
    assert!(!is_reset_command(true, "tubarao testes"));
}

#[test]
fn stage_answers_and_progression() {
    assert!(is_expected_stage_answer("STAGE_1", "é um poço artesiano"));
    assert!(is_expected_stage_answer("STAGE_1", "uma cisterna"));
    assert!(!is_expected_stage_answer("STAGE_1", "não sei"));
    assert!(is_expected_stage_answer("STAGE_2", "uns 40 metros"));
    // any letter m counts at the second stage
    assert!(is_expected_stage_answer("STAGE_2", "hmm"));
    assert!(!is_expected_stage_answer("STAGE_2", "sei la"));
    assert!(!is_expected_stage_answer("STAGE_3", "poço de 10 metros"));
    assert_eq!(next_stage("STAGE_1"), "STAGE_2");
    assert_eq!(next_stage("STAGE_2"), "STAGE_3");
    assert_eq!(next_stage("STAGE_TRANSFER"), "STAGE_3");
    assert!(matches!(plan_stage_step(true, "STAGE_2", "x"), StageStep::Greet));
    match plan_stage_step(false, "STAGE_1", "rio") {
        StageStep::Advance { next } => assert_eq!(next, "STAGE_2"),
        _ => panic!("expected an advance"),
    }
    assert!(matches!(plan_stage_step(false, "STAGE_1", "oi"), StageStep::AskAssistant));
    assert_eq!(chat_stage_or_first(None), "STAGE_1");
    assert_eq!(chat_stage_or_first(Some("STAGE_3".to_string())), "STAGE_3");
}

#[test]
fn default_recordings_per_stage() {
    assert_eq!(default_stage_audio("STAGE_1"), "/assets/vendas_leandro_puck.mp3");
    assert_eq!(default_stage_audio("STAGE_2"), "/assets/stage_2_puck.mp3");
    assert_eq!(default_stage_audio("STAGE_3"), "/assets/stage_3_puck.mp3");
    assert_eq!(default_stage_audio("OUTRO"), "/assets/stage_transfer_puck.mp3");
}

#[test]
fn scripted_replies() {
    assert_eq!(full_audio_url("/assets/a.mp3"), "https://tubaraoia.lysia.tech/assets/a.mp3");
    assert_eq!(full_audio_url("http://x/a.mp3"), "http://x/a.mp3");
    match static_stage_reply(&stage_cfg("Texto", "/assets/s2.mp3"), "/assets/d.mp3", true) {
        Some(StaticReply::Audio { url }) => assert_eq!(url, "https://tubaraoia.lysia.tech/assets/s2.mp3"),
        _ => panic!("expected audio"),
    }
    match static_stage_reply(&stage_cfg("Texto", "  "), "/assets/d.mp3", true) {
        Some(StaticReply::Audio { url }) => assert_eq!(url, "https://tubaraoia.lysia.tech/assets/d.mp3"),
        _ => panic!("expected the default audio"),
    }
    match static_stage_reply(&stage_cfg("Texto", "/assets/s2.mp3"), "/assets/d.mp3", false) {
        Some(StaticReply::Text { text }) => assert_eq!(text, "Texto"),
        _ => panic!("expected text"),
    }
    assert!(static_stage_reply(&stage_cfg("", "/a.mp3"), "/d.mp3", false).is_none());
    assert!(static_stage_reply(&None, "/d.mp3", true).is_none());
}

#[test]
fn stage_prompt_names_the_stage_twice() {
    let p = stage_prompt("Quanto custa?", "STAGE_2");
    assert!(p.starts_with("Quanto custa?\n[INSTRUÇÃO DE ETAPA: O cliente está na etapa 'STAGE_2'."));
    assert!(p.ends_with("fazendo a pergunta pendente da etapa 'STAGE_2']"));
}

#[test]
fn transfer_keyword_is_removed() {
    assert_eq!(
        detect_transfer(true, "[TRANSFERIR]", "Vou te passar. [TRANSFERIR] "),
        (true, "Vou te passar.".to_string())
    );
    assert_eq!(
        detect_transfer(false, "[TRANSFERIR]", "Vou te passar. [TRANSFERIR]"),
        (false, "Vou te passar. [TRANSFERIR]".to_string())
    );
    assert_eq!(detect_transfer(true, "", "abc"), (false, "abc".to_string()));
    assert_eq!(detect_transfer(true, "[X]", "abc"), (false, "abc".to_string()));
}

#[test]
fn voice_cache_is_named_by_hash() {
    let (rel, full) = audio_cache_paths(0xdead_beef);
    assert_eq!(rel, "/assets/audio_cache/deadbeef.mp3");
    assert_eq!(full, "assets/audio_cache/deadbeef.mp3");
    let (rel_max, _) = audio_cache_paths(u64::MAX);
    assert_eq!(rel_max, "/assets/audio_cache/ffffffffffffffff.mp3");
}

#[test]
fn only_online_attendants_take_part() {
    let candidates = vec!["a".to_string(), "b".to_string(), "c".to_string()];
    let online = vec!["c".to_string(), "a".to_string()];
    assert_eq!(retain_online(&candidates, &online), vec!["a".to_string(), "c".to_string()]);
    assert!(retain_online(&candidates, &Vec::new()).is_empty());
}

#[test]
fn rotation_is_round_robin() {
    let ops = vec!["a".to_string(), "b".to_string(), "c".to_string()];
    assert!(next_rotation_pick(&Vec::new(), &None).is_none());
    let first = next_rotation_pick(&ops, &None).unwrap();
    assert_eq!((first.operator_id.as_str(), first.index, first.stored.as_str()), ("b", 1, "1"));
    let mut stored = Some(first.stored.clone());
    let mut seen = vec![];
    for _ in 0..3 {
        let p = next_rotation_pick(&ops, &stored).unwrap();
        seen.push(p.operator_id.clone());
        stored = Some(p.stored);
    }
    assert_eq!(seen, vec!["c".to_string(), "a".to_string(), "b".to_string()]);
    let p = next_rotation_pick(&ops, &Some("lixo".to_string())).unwrap();
    assert_eq!(p.index, 1);
    let big = next_rotation_pick(&ops, &Some(usize_to_decimal(usize::MAX))).unwrap();
    assert_eq!(big.index, ((usize::MAX as u128 + 1) % 3) as usize);
}

#[test]
fn tags_for_the_attendant() {
    let tags = to_json(&serde_json::from_str::<serde_json::Value>(
        r#"{"items":[{"id":"t1","name":"Leandro Humberto"},{"id":"t2","name":"Outro"},{"name":"LEANDRO sem id"},{"id":"t3","name":"leandro"}]}"#,
    ).unwrap());
    assert_eq!(
        select_tag_ids(&tags, "Leandro"),
        vec!["aQC8MBYhPaycNeGd".to_string(), "t1".to_string(), "t3".to_string()]
    );
    assert_eq!(select_tag_ids(&JsonValue::Null, "x"), vec!["aQC8MBYhPaycNeGd".to_string()]);
}

fn row(role: &str, content: &str, at: &str) -> HistoryRow {
    HistoryRow { role: role.to_string(), content: content.to_string(), created_at: at.to_string() }
}

#[test]
fn context_after_a_long_pause_starts_with_a_note() {
    let rows = vec![
        row("model", "resposta", "2024-01-01T00:00:00+00:00"),
        row("user", "pergunta", "2023-12-31T23:59:00+00:00"),
    ];
    let now = Instant { secs: 1_704_067_200 + 30 * 3600 + 59, nanos: 0 };
    let c = chat_context(&rows, &now, 24);
    assert_eq!(c.hours_since_last, Some(30));
    assert_eq!(c.turns.len(), 3);
    assert_eq!(c.turns[0].role, "user");
    assert_eq!(
        c.turns[0].text,
        "[AVISO DO SISTEMA: Se passaram 1 dias (30 horas) desde a última conversa com este cliente. Trate como um novo atendimento/contato, mantendo cordialidade.]"
    );
    assert_eq!((c.turns[1].role.as_str(), c.turns[1].text.as_str()), ("user", "pergunta"));
    assert_eq!((c.turns[2].role.as_str(), c.turns[2].text.as_str()), ("model", "resposta"));
}

#[test]
fn context_after_a_short_pause_has_no_note() {
    let rows = vec![row("user", "oi", "2024-01-01T00:00:00-03:00")];
    let now = Instant { secs: 1_704_078_000 + 2 * 3600, nanos: 5 };
    let c = chat_context(&rows, &now, 24);
    assert_eq!(c.hours_since_last, Some(2));
    assert_eq!(c.turns.len(), 1);
    assert_eq!(c.turns[0].text, "oi");
}

#[test]
fn unreadable_time_counts_as_now_and_empty_history_has_none() {
    let rows = vec![row("user", "oi", "ontem")];
    let now = Instant { secs: 10, nanos: 0 };
    let c = chat_context(&rows, &now, 0);
    assert_eq!(c.hours_since_last, Some(0));
    assert_eq!(c.turns.len(), 1);
    let empty = chat_context(&Vec::new(), &now, 24);
    assert_eq!(empty.hours_since_last, None);
    assert!(empty.turns.is_empty());
}

#[test]
fn future_messages_give_negative_hours() {
    let rows = vec![row("user", "oi", "2024-01-01T10:00:00Z")];
    let now = Instant { secs: 1_704_103_200 - 5400, nanos: 0 };
    let c = chat_context(&rows, &now, 24);
    assert_eq!(c.hours_since_last, Some(-1));
    assert_eq!(c.turns.len(), 1);
}

#[test]
fn the_pause_note_needs_more_than_the_gap() {
    let rows = vec![row("user", "oi", "2024-01-01T00:00:00Z")];
    let exactly = Instant { secs: 1_704_067_200 + 24 * 3600, nanos: 0 };
    let c = chat_context(&rows, &exactly, 24);
    assert_eq!(c.hours_since_last, Some(24));
    assert_eq!(c.turns.len(), 1);
    let just_after = Instant { secs: 1_704_067_200 + 24 * 3600, nanos: 1 };
    let c = chat_context(&rows, &just_after, 24);
    assert_eq!(c.hours_since_last, Some(24));
    assert_eq!(c.turns.len(), 2);
    assert!(c.turns[0].text.starts_with("[AVISO DO SISTEMA: Se passaram 1 dias (24 horas)"));
}

#[test]
fn defaults_keep_stored_texts_and_recordings() {
    let d = &default_stage_configs()[0];
    let stored = StageConfig {
        stage_key: d.stage_key.clone(),
        title: "Meu título".to_string(),
        text_message: "Meu texto".to_string(),
        audio_url: "".to_string(),
    };
    let m = merge_stage(Some(stored), d);
    assert_eq!((m.title.as_str(), m.text_message.as_str()), ("Meu título", "Meu texto"));
    assert_eq!(m.audio_url, d.audio_url);
    let fresh = merge_stage(None, d);
    assert_eq!(fresh.title, d.title);
    let di = &default_audio_bank_items()[0];
    let stored_item = AudioBankItem {
        key: di.key.clone(),
        title: "T".to_string(),
        description: "velha".to_string(),
        text_message: "velho".to_string(),
        audio_url: "/assets/uploads/x.mp3".to_string(),
    };
    let mi = merge_audio_item(Some(stored_item), di);
    assert_eq!(mi.title, "T");
    assert_eq!(mi.description, di.description);
    assert_eq!(mi.text_message, di.text_message);
    assert_eq!(mi.audio_url, "/assets/uploads/x.mp3");
}

#[test]
fn rotation_over_a_full_round_visits_everyone_once() {
    let ids: Vec<String> = vec!["a".to_string(), "b".to_string(), "c".to_string()];
    let mut stored = Some("7".to_string());
    let mut seen = Vec::new();
    for _ in 0..3 {
        let p = next_rotation_pick(&ids, &stored).unwrap();
        seen.push(p.operator_id.clone());
        stored = Some(p.stored);
    }
    assert_eq!(seen, vec!["c".to_string(), "a".to_string(), "b".to_string()]);
}
