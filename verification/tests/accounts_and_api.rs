use std::hash::{Hash, Hasher};
use utalk_bot::accounts::{
    check_admin_deletion, credentials_valid, extract_token, logout_cookie, session_cookie,
    session_times, session_token, split_on, validate_new_admin, validate_new_password,
};
use utalk_bot::assets::{asset_mime, asset_path, is_upload_field, upload_extension, upload_file_name};
use utalk_bot::config::AppConfig;
use utalk_bot::history::Instant;
use utalk_bot::json::JsonValue;
use utalk_bot::utalk::{
    attendant_name, audio_fetch_step, audio_message_body, audio_payload, chat_url, check_audio_request,
    check_credentials, media_of_message, message_url, messages_url, online_ids_from,
    online_members_url, operators_from, organization_url, send_outcome, tags_url, text_message_body,
    transfer_body, transfer_outcome, webhooks_from, webhooks_url, AudioFetchStep, UtalkOperator,
};

fn to_json(v: &serde_json::Value) -> JsonValue {
    match v {
        serde_json::Value::Null => JsonValue::Null,
        serde_json::Value::Bool(b) => JsonValue::Bool(*b),
        serde_json::Value::Number(n) => JsonValue::Number(n.to_string()),
        serde_json::Value::String(s) => JsonValue::Str(s.clone()),
        serde_json::Value::Array(a) => JsonValue::Array(a.iter().map(to_json).collect()),
        serde_json::Value::Object(o) => {
            JsonValue::Object(o.iter().map(|(k, v)| (k.clone(), to_json(v))).collect())
        }
    }
}

fn parse(text: &str) -> JsonValue {
    to_json(&serde_json::from_str::<serde_json::Value>(text).unwrap())
}

#[test]
fn bearer_header_comes_first() {
    assert_eq!(extract_token(Some("Bearer  abc "), Some("session_token=zzz")), Some("abc".to_string()));
    assert_eq!(extract_token(Some("Basic abc"), Some("session_token=zzz")), Some("zzz".to_string()));
    assert_eq!(extract_token(Some("bearer abc"), None), None);
    assert_eq!(extract_token(None, None), None);
}

#[test]
fn session_cookie_is_found_among_others() {
    assert_eq!(
        extract_token(None, Some("theme=dark; session_token=tok_1_2; other=x")),
        Some("tok_1_2".to_string())
    );
    assert_eq!(extract_token(None, Some("a=b;session_token=v=w")), Some("v=w".to_string()));
    assert_eq!(extract_token(None, Some("session_token")), None);
    assert_eq!(extract_token(None, Some("x=1; session_token=; y=2")), Some("".to_string()));
    assert_eq!(extract_token(None, Some("session_token=a; session_token=b")), Some("a".to_string()));
}

#[test]
fn split_keeps_empty_pieces() {
    assert_eq!(split_on("a;;b;", ';'), vec!["a", "", "b", ""]);
    assert_eq!(split_on("", ';'), vec![""]);
}

#[test]
fn cookies_round_trip_through_the_header() {
    let tok = session_token(1_700_000_000_123_456_789, 1_700_000_000_123_456);
    let cookie = session_cookie(&tok);
    let sent_back = cookie.split(';').next().unwrap().to_string();
    assert_eq!(extract_token(None, Some(&sent_back)), Some(tok));
    assert_eq!(logout_cookie(), "session_token=; Path=/; HttpOnly; Max-Age=0");
}

#[test]
fn session_tokens_are_hexadecimal() {
    assert_eq!(session_token(255, 1_000_017), "tok_ff_11");
    assert_eq!(session_token(0, -3), format!("tok_0_{:x}", -3i64));
}

#[test]
fn session_times_are_rfc3339() {
    let now = Instant { secs: 1_704_067_200, nanos: 0 };
    let (created, expires) = session_times(&now, 24).unwrap();
    assert_eq!(created, "2024-01-01T00:00:00+00:00");
    assert_eq!(expires, "2024-01-02T00:00:00+00:00");
    assert!(session_times(&now, i64::MAX).is_none());
}

#[test]
fn credentials_prefer_the_stored_administrator() {
    assert!(credentials_valid(&Some("s3".to_string()), "ana", "s3", "admin", "admin123"));
    assert!(!credentials_valid(&Some("s3".to_string()), "admin", "admin123", "admin", "admin123"));
    assert!(credentials_valid(&None, "admin", "admin123", "admin", "admin123"));
    assert!(!credentials_valid(&None, "admin", "x", "admin", "admin123"));
}

#[test]
fn administrator_deletion_rules() {
    assert_eq!(check_admin_deletion(&None, "a", 3), Err("Administrador não encontrado.".to_string()));
    assert_eq!(
        check_admin_deletion(&Some("Ana".to_string()), "ANA", 3),
        Err("Você não pode excluir o seu próprio usuário enquanto estiver logado.".to_string())
    );
    assert_eq!(
        check_admin_deletion(&Some("bia".to_string()), "ana", 1),
        Err("Não é possível excluir o único administrador do sistema.".to_string())
    );
    assert_eq!(check_admin_deletion(&Some("bia".to_string()), "ana", 2), Ok(()));
}

#[test]
fn new_administrators_and_passwords() {
    assert_eq!(validate_new_admin(" ana ", " pw "), Ok(("ana".to_string(), "pw".to_string())));
    assert_eq!(validate_new_admin(" ", "pw"), Err("Usuário e senha são obrigatórios.".to_string()));
    assert_eq!(validate_new_password("  nova "), Ok("nova".to_string()));
    assert_eq!(validate_new_password("\t"), Err("Nova senha não pode ser vazia.".to_string()));
}

#[test]
fn config_from_environment() {
    let c = AppConfig::from_env_values(None, Some("pw".into()), None, None, Some("tok".into()), None, None);
    assert!(c.bot_enabled);
    assert_eq!(c.admin_username, "admin");
    assert_eq!(c.admin_password, "pw");
    assert_eq!(c.gemini_api_key, "");
    assert_eq!(c.gemini_model, "gemini-3.1-flash-lite");
    assert_eq!(c.utalk_api_token, "tok");
    assert_eq!(c.utalk_api_url, "https://app-utalk.umbler.com/api/v1");
    assert_eq!(c.external_apis.len(), 1);
    assert_eq!(c.external_apis[0].id, "api_exemplo_1");
    assert_eq!(c.external_apis[0].headers[0].key, "Authorization");
    assert!(!c.rotation_enabled);
}

#[test]
fn utalk_endpoints() {
    assert_eq!(messages_url("https://u/api/v1/", "o1"), "https://u/api/v1/messages?organizationId=o1");
    assert_eq!(organization_url("https://u/api/v1", "o1"), "https://u/api/v1/organizations/o1/");
    assert_eq!(webhooks_url("u//", "o"), "u/webhooks?organizationId=o");
    assert_eq!(online_members_url("u", "o"), "u/members/online/?organizationId=o");
    assert_eq!(chat_url("u/", "c", "o"), "u/chats/c/?organizationId=o");
    assert_eq!(message_url("u", "m", "o"), "u/messages/m?organizationId=o");
    assert_eq!(tags_url("u", "o"), "u/tags/?organizationId=o");
}

#[test]
fn utalk_credentials() {
    assert_eq!(check_credentials("", "o"), Err("Token ou Organization ID do uTalk não configurados".to_string()));
    assert_eq!(check_credentials("t", "o"), Ok(()));
    assert_eq!(check_audio_request("t", "o", ""), Err("Dados incompletos para buscar áudio".to_string()));
    assert_eq!(check_audio_request("t", "o", "m"), Ok(()));
}

fn entries(v: &JsonValue) -> Vec<(String, String)> {
    match v {
        JsonValue::Object(es) => es
            .iter()
            .map(|(k, v)| match v {
                JsonValue::Str(s) => (k.clone(), s.clone()),
                _ => (k.clone(), String::new()),
            })
            .collect(),
        _ => vec![],
    }
}

#[test]
fn request_bodies() {
    assert_eq!(
        entries(&text_message_body("c", "o", "oi")),
        vec![("ChatId".into(), "c".into()), ("OrganizationId".into(), "o".into()), ("Message".into(), "oi".into())]
    );
    let audio = entries(&audio_message_body("c", "o", "https://x/a.mp3"));
    assert_eq!(audio.len(), 7);
    assert_eq!(audio[6], ("MessageType".to_string(), "Audio".to_string()));
    assert_eq!(entries(&transfer_body("m1")), vec![("memberId".to_string(), "m1".to_string())]);
}

#[test]
fn outcomes_of_sending() {
    assert_eq!(send_outcome(true, "200 OK", Some("ok".into())), Ok("ok".to_string()));
    assert_eq!(
        send_outcome(false, "500 Internal Server Error", None),
        Err("Erro uTalk HTTP 500 Internal Server Error: Sem corpo de resposta".to_string())
    );
    assert_eq!(
        transfer_outcome(false, "404 Not Found", None),
        Err("Erro ao transferir chat uTalk HTTP 404 Not Found: ".to_string())
    );
}

#[test]
fn operators_are_the_human_agents() {
    let org = parse(
        r#"{"organizationMembers":[
            {"_t":"OrganizationHumanAgentReferenceModel","id":"a","displayName":"Ana","emailAddress":"a@x","active":true},
            {"_t":"OrganizationBotReferenceModel","id":"bot"},
            {"_t":"OrganizationHumanAgentReferenceModel","id":"b","name":"Bia"},
            {"_t":"OrganizationHumanAgentReferenceModel","id":"c","displayName":null,"name":"Caio"},
            {"_t":"OrganizationHumanAgentReferenceModel","id":""}
        ]}"#,
    );
    let ops = operators_from(&org, &vec!["b".to_string()]);
    let view: Vec<(String, String, String, bool, bool)> =
        ops.iter().map(|o| (o.id.clone(), o.name.clone(), o.email.clone(), o.active, o.is_online)).collect();
    assert_eq!(
        view,
        vec![
            ("a".into(), "Ana".into(), "a@x".into(), true, false),
            ("b".into(), "Bia".into(), "".into(), false, true),
            ("c".into(), "Sem nome".into(), "".into(), false, false),
        ]
    );
    assert_eq!(attendant_name(&ops, "b"), "Bia");
    assert_eq!(attendant_name(&ops, "zz"), "zz");
    let _unused: Vec<UtalkOperator> = operators_from(&JsonValue::Null, &Vec::new());
}

#[test]
fn webhooks_and_online_members() {
    let items = match parse(r#"[{"id":"w1","url":"https://h","paused":true,"forChannels":["c1",2],"events":["Message"]},{}]"#) {
        JsonValue::Array(a) => a,
        _ => panic!(),
    };
    let ws = webhooks_from(&items);
    assert_eq!(ws.len(), 2);
    assert_eq!((ws[0].id.as_str(), ws[0].name.as_str(), ws[0].url.as_str(), ws[0].paused), ("w1", "Sem nome", "https://h", true));
    assert_eq!(ws[0].for_channels, vec!["c1".to_string()]);
    assert_eq!(ws[0].events, vec!["Message".to_string()]);
    assert_eq!((ws[1].name.as_str(), ws[1].paused), ("Sem nome", false));
    assert_eq!(online_ids_from(&parse(r#"[{"id":"a"},{"x":1},{"id":"b"}]"#)), vec!["a", "b"]);
    assert!(online_ids_from(&parse(r#"{"id":"a"}"#)).is_empty());
}

#[test]
fn media_of_a_message() {
    let (url, ty) = media_of_message(&parse(r#"{"Media":{"Url":"https://m/1.ogg","ContentType":"audio/ogg"}}"#));
    assert_eq!(url, Some("https://m/1.ogg".to_string()));
    assert_eq!(ty, "audio/ogg");
    let (url2, ty2) = media_of_message(&parse(r#"{"MediaUrl":"https://m/2.mp3"}"#));
    assert_eq!(url2, Some("https://m/2.mp3".to_string()));
    assert_eq!(ty2, "audio/mp3");
    assert_eq!(media_of_message(&parse("{}")).0, None);
}

#[test]
fn audio_fetch_retries_four_times() {
    assert!(matches!(audio_fetch_step(1, true, Some("u".into())), AudioFetchStep::Download { .. }));
    assert!(matches!(audio_fetch_step(1, true, Some("".into())), AudioFetchStep::Retry));
    assert!(matches!(audio_fetch_step(3, false, Some("u".into())), AudioFetchStep::Retry));
    assert!(matches!(audio_fetch_step(4, true, None), AudioFetchStep::GiveUp));
}

#[test]
fn audio_is_sent_in_base64() {
    let (ty, b64) = audio_payload("audio/mp3".to_string(), &b"hello world~".to_vec());
    assert_eq!(ty, "audio/mp3");
    assert_eq!(b64, "aGVsbG8gd29ybGR+");
    assert_eq!(audio_payload(String::new(), &vec![0xff]).1, "/w==");
    assert_eq!(audio_payload(String::new(), &vec![0xfb, 0xef]).1, "++8=");
    assert_eq!(audio_payload(String::new(), &Vec::new()).1, "");
}

#[test]
fn assets_and_uploads() {
    assert_eq!(asset_mime("voz.mp3"), "audio/mpeg");
    assert_eq!(asset_mime("logo.png"), "image/png");
    assert_eq!(asset_mime("a.jpeg"), "image/jpeg");
    assert_eq!(asset_mime("a.JPG"), "application/octet-stream");
    assert_eq!(asset_path("uploads/x.mp3"), "assets/uploads/x.mp3");
    assert!(is_upload_field("audio") && is_upload_field("file") && !is_upload_field("img"));
    assert_eq!(upload_extension("gravacao.wav"), ".wav");
    assert_eq!(upload_extension("gravacao.ogg"), ".mp3");
    assert_eq!(upload_file_name(1700, 42, ".mp3"), "upload_1700_42.mp3");
}

#[test]
fn the_login_cookie_is_read_back_as_the_session_token() {
    let token = utalk_bot::accounts::session_token(1_700_000_000_123_456_789, 1_700_000_000_123_456);
    let sent_back = format!("session_token={}", token);
    assert_eq!(utalk_bot::accounts::extract_token(None, Some(&sent_back)), Some(token.clone()));
    let bearer = format!("Bearer {}", token);
    assert_eq!(utalk_bot::accounts::extract_token(Some(&bearer), None), Some(token));
}

#[test]
fn uploads_are_named_by_time_hash_and_extension() {
    let name = utalk_bot::assets::upload_name(1700, "voz.wav");
    assert!(name.starts_with("upload_1700_"));
    assert!(name.ends_with(".wav"));
    let digits = &name["upload_1700_".len()..name.len() - 4];
    let expected = {
        let mut h = std::collections::hash_map::DefaultHasher::new();
        "voz.wav".to_string().hash(&mut h);
        h.finish()
    };
    assert_eq!(digits, expected.to_string());
    assert!(utalk_bot::assets::upload_name(-5, "voz.ogg").starts_with("upload_-5_"));
}

#[test]
fn bearer_tokens_are_trimmed_of_unicode_white_space() {
    assert_eq!(extract_token(Some("Bearer \u{3000} abc\u{00A0}"), None), Some("abc".to_string()));
    assert_eq!(utalk_bot::text::trim("\u{2028}x\u{85}"), "x");
}
