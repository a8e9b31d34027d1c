//! How the assistant handles a client's message: what it reads of the
//! message, which prompt it forms, the scripted stages of the sales
//! conversation (greeting, water source, depth and distance, flow), when
//! the pre-recorded stage replies are sent, and the hand-over of the chat to
//! a human attendant.
use vstd::prelude::*;
use crate::json::{JsonValue, as_array, as_array_spec, as_str, as_str_spec, deref_opt, field, field_spec, str_or};
use crate::text::{
    concat, contains, seq_contains, seq_starts_with, starts_with, str_eq, to_lowercase, trim,
    trim_spec, unicode_lowercase, replace, replace_all, i64_to_lower_hex, lower_hex,
};
use crate::webhook::{
    chat_id_of, chat_id_spec, contact_name_of, contact_name_spec, message_node, or_default,
    payload_type_spec, phone_of, phone_spec, strings_view,
};

verus! {

// ---------------------------------------------------------------------------
// The message
// ---------------------------------------------------------------------------

/// What the assistant reads of an incoming message.
#[derive(Debug)]
pub struct IncomingMessage {
    pub msg_id: String,
    pub source: String,
    pub msg_type: String,
    pub content: String,
    pub chat_id: String,
    pub contact_name: String,
    pub phone: String,
    /// The audio's address when the payload carries it.
    pub direct_audio_url: Option<String>,
}

pub open spec fn msg_str_spec(p: JsonValue, key: Seq<char>) -> Seq<char> {
    str_or(field_spec(message_node(p), key), Seq::empty())
}

/// `file.url`, else `File.Url`, else `media.url` of the message.
pub open spec fn direct_audio_url_spec(p: JsonValue) -> Option<Seq<char>> {
    let m = message_node(p);
    let a = as_str_spec(field_spec(field_spec(m, "file"@), "url"@));
    let b = as_str_spec(field_spec(field_spec(m, "File"@), "Url"@));
    let c = as_str_spec(field_spec(field_spec(m, "media"@), "url"@));
    if a is Some {
        a
    } else if b is Some {
        b
    } else {
        c
    }
}

pub open spec fn opt_view(s: Option<String>) -> Option<Seq<char>> {
    match s {
        Some(x) => Some(x@),
        None => None,
    }
}

fn msg_str<'a>(m: Option<&'a JsonValue>, key: &str) -> (r: String)
    ensures
        r@ == str_or(field_spec(deref_opt(m), key@), Seq::empty()),
{
    proof {
        reveal_strlit("");
    }
    match as_str(field(m, key)) {
        Some(s) => s,
        None => String::new(),
    }
}

fn message_of_payload(p: &JsonValue) -> (r: Option<&JsonValue>)
    ensures
        deref_opt(r) == message_node(*p),
{
    let c = field(field(Some(p), "Payload"), "Content");
    let ty = match as_str(field(field(Some(p), "Payload"), "Type")) {
        Some(s) => s,
        None => String::new(),
    };
    proof {
        reveal_strlit("");
        assert(ty@ == payload_type_spec(*p));
    }
    if str_eq(ty.as_str(), "Message") || crate::json::is_string(field(c, "MessageType")) {
        c
    } else {
        field(c, "LastMessage")
    }
}

/// Reads the message an event carries.
pub fn read_message(p: &JsonValue) -> (m: IncomingMessage)
    ensures
        m.msg_id@ == msg_str_spec(*p, "Id"@),
        m.source@ == msg_str_spec(*p, "Source"@),
        m.msg_type@ == msg_str_spec(*p, "MessageType"@),
        m.content@ == msg_str_spec(*p, "Content"@),
        m.chat_id@ == chat_id_spec(*p),
        m.contact_name@ == contact_name_spec(*p),
        m.phone@ == phone_spec(*p),
        opt_view(m.direct_audio_url) == direct_audio_url_spec(*p),
{
    let msg = message_of_payload(p);
    let a = as_str(field(field(msg, "file"), "url"));
    let url = if a.is_some() {
        a
    } else {
        let b = as_str(field(field(msg, "File"), "Url"));
        if b.is_some() {
            b
        } else {
            as_str(field(field(msg, "media"), "url"))
        }
    };
    IncomingMessage {
        msg_id: msg_str(msg, "Id"),
        source: msg_str(msg, "Source"),
        msg_type: msg_str(msg, "MessageType"),
        content: msg_str(msg, "Content"),
        chat_id: chat_id_of(p),
        contact_name: contact_name_of(p),
        phone: phone_of(p),
        direct_audio_url: url,
    }
}

/// The assistant handles messages sent by the contact, and audio
/// messages, of a known chat.
pub open spec fn is_answerable_spec(source: Seq<char>, msg_type: Seq<char>, chat_id: Seq<char>) -> bool {
    (source == "Contact"@ || msg_type == "Audio"@) && chat_id.len() > 0
}

/// Whether the assistant handles the message.
pub fn is_answerable(m: &IncomingMessage) -> (b: bool)
    ensures
        b == is_answerable_spec(m.source@, m.msg_type@, m.chat_id@),
{
    (str_eq(m.source.as_str(), "Contact") || str_eq(m.msg_type.as_str(), "Audio"))
        && !m.chat_id.as_str().is_empty()
}

pub open spec fn audio_received_prompt() -> Seq<char> {
    "[Áudio enviado pelo cliente]"@
}

/// The prompt a message gives: its text for text messages, a note for an
/// audio (whose sound goes along when it could be fetched) or an image,
/// its content otherwise.
pub open spec fn user_prompt_spec(
    msg_type: Seq<char>,
    content: Seq<char>,
    contact_name: Seq<char>,
    audio_fetched: bool,
) -> Seq<char> {
    if msg_type == "Text"@ {
        content
    } else if msg_type == "Audio"@ {
        if audio_fetched {
            audio_received_prompt()
        } else {
            "O cliente '"@ + contact_name + "' enviou um áudio."@
        }
    } else if msg_type == "Image"@ {
        "O cliente '"@ + contact_name + "' enviou uma imagem. Atenda-o cordialmente."@
    } else {
        content
    }
}

/// The prompt formed from a message.
pub fn user_prompt(msg_type: &str, content: &str, contact_name: &str, audio_fetched: bool) -> (r: String)
    ensures
        r@ == user_prompt_spec(msg_type@, content@, contact_name@, audio_fetched),
{
    if str_eq(msg_type, "Text") {
        content.to_owned()
    } else if str_eq(msg_type, "Audio") {
        if audio_fetched {
            "[Áudio enviado pelo cliente]".to_owned()
        } else {
            concat(concat("O cliente '", contact_name).as_str(), "' enviou um áudio.")
        }
    } else if str_eq(msg_type, "Image") {
        concat(
            concat("O cliente '", contact_name).as_str(),
            "' enviou uma imagem. Atenda-o cordialmente.",
        )
    } else {
        content.to_owned()
    }
}

/// Nothing is answered to a prompt that is blank and carries no audio.
pub fn is_blank_prompt(prompt: &str, has_audio: bool) -> (b: bool)
    ensures
        b == (trim_spec(prompt@).len() == 0 && !has_audio),
{
    trim(prompt).as_str().is_empty() && !has_audio
}

/// A tester restarts the conversation by writing `tubarao_testes`.
pub fn is_reset_command(tester: bool, prompt: &str) -> (b: bool)
    ensures
        b == (tester && seq_contains(unicode_lowercase(prompt@), "tubarao_testes"@)),
{
    tester && contains(to_lowercase(prompt).as_str(), "tubarao_testes")
}

// ---------------------------------------------------------------------------
// The stages
// ---------------------------------------------------------------------------

pub open spec fn contains_any(s: Seq<char>, words: Seq<Seq<char>>) -> bool {
    exists|i: int| 0 <= i < words.len() && seq_contains(s, #[trigger] words[i])
}

/// Words that show the client named a water source.
pub open spec fn source_words() -> Seq<Seq<char>> {
    seq![
        "poço"@,
        "poco"@,
        "rio"@,
        "represa"@,
        "cacimba"@,
        "artesiano"@,
        "arteziano"@,
        "cisterna"@,
    ]
}

/// Words that show the client gave depth or distance.
pub open spec fn distance_words() -> Seq<Seq<char>> {
    seq!["metro"@, "m"@, "profund"@, "distancia"@, "caixa"@]
}

/// Whether the lower-cased answer is what the current stage asks for.
pub open spec fn expected_answer_spec(stage: Seq<char>, text_low: Seq<char>) -> bool {
    if stage == "STAGE_1"@ {
        contains_any(text_low, source_words())
    } else if stage == "STAGE_2"@ {
        contains_any(text_low, distance_words())
    } else {
        false
    }
}

/// The stage after an expected answer.
pub open spec fn next_stage_spec(stage: Seq<char>) -> Seq<char> {
    if stage == "STAGE_1"@ {
        "STAGE_2"@
    } else {
        "STAGE_3"@
    }
}

/// The recording sent at a stage whose configuration has none.
pub open spec fn default_stage_audio_spec(stage: Seq<char>) -> Seq<char> {
    if stage == "STAGE_1"@ {
        "/assets/vendas_leandro_puck.mp3"@
    } else if stage == "STAGE_2"@ {
        "/assets/stage_2_puck.mp3"@
    } else if stage == "STAGE_3"@ {
        "/assets/stage_3_puck.mp3"@
    } else {
        "/assets/stage_transfer_puck.mp3"@
    }
}

fn contains_any_of(s: &str, words: &[&str]) -> (b: bool)
    ensures
        b == contains_any(s@, words@.map_values(|w: &str| w@)),
{
    let ghost ws = words@.map_values(|w: &str| w@);
    let mut i: usize = 0;
    while i < words.len()
        invariant
            i <= words.len(),
            ws == words@.map_values(|w: &str| w@),
            forall|j: int| 0 <= j < i ==> !seq_contains(s@, #[trigger] ws[j]),
        decreases words.len() - i,
    {
        if contains(s, words[i]) {
            assert(ws[i as int] == words@[i as int]@);
            return true;
        }
        assert(ws[i as int] == words@[i as int]@);
        i = i + 1;
    }
    false
}

/// Whether the lower-cased answer is what the current stage asks for.
pub fn is_expected_stage_answer(stage: &str, text_low: &str) -> (b: bool)
    ensures
        b == expected_answer_spec(stage@, text_low@),
{
    if str_eq(stage, "STAGE_1") {
        let words: [&str; 8] = [
            "poço",
            "poco",
            "rio",
            "represa",
            "cacimba",
            "artesiano",
            "arteziano",
            "cisterna",
        ];
        let r = contains_any_of(text_low, &words);
        assert(words@.map_values(|w: &str| w@) =~= source_words());
        r
    } else if str_eq(stage, "STAGE_2") {
        let words: [&str; 5] = ["metro", "m", "profund", "distancia", "caixa"];
        let r = contains_any_of(text_low, &words);
        assert(words@.map_values(|w: &str| w@) =~= distance_words());
        r
    } else {
        false
    }
}

/// The stage after an expected answer.
pub fn next_stage(stage: &str) -> (r: String)
    ensures
        r@ == next_stage_spec(stage@),
{
    if str_eq(stage, "STAGE_1") {
        "STAGE_2".to_owned()
    } else {
        "STAGE_3".to_owned()
    }
}

/// The recording sent at a stage whose configuration has none.
pub fn default_stage_audio(stage: &str) -> (r: String)
    ensures
        r@ == default_stage_audio_spec(stage@),
{
    if str_eq(stage, "STAGE_1") {
        "/assets/vendas_leandro_puck.mp3".to_owned()
    } else if str_eq(stage, "STAGE_2") {
        "/assets/stage_2_puck.mp3".to_owned()
    } else if str_eq(stage, "STAGE_3") {
        "/assets/stage_3_puck.mp3".to_owned()
    } else {
        "/assets/stage_transfer_puck.mp3".to_owned()
    }
}

/// The next step of the scripted conversation.
#[derive(Debug)]
pub enum StageStep {
    /// First contact: the chat goes to `STAGE_1` and is greeted.
    Greet,
    /// The client answered what the stage asks: the chat goes to `next`.
    Advance { next: String },
    /// Anything else is left to the assistant.
    AskAssistant,
}

/// Where the scripted conversation goes after a message: a chat without
/// history is greeted; an expected answer advances the stage; anything
/// else goes to the assistant.
pub fn plan_stage_step(first_contact: bool, stage: &str, text_low: &str) -> (s: StageStep)
    ensures
        first_contact ==> s is Greet,
        !first_contact && expected_answer_spec(stage@, text_low@) ==> (s matches StageStep::Advance {
            next,
        } && next@ == next_stage_spec(stage@)),
        !first_contact && !expected_answer_spec(stage@, text_low@) ==> s is AskAssistant,
{
    if first_contact {
        StageStep::Greet
    } else if is_expected_stage_answer(stage, text_low) {
        StageStep::Advance { next: next_stage(stage) }
    } else {
        StageStep::AskAssistant
    }
}

/// The stored text and recording of a stage.
#[derive(Debug)]
pub struct StageConfig {
    pub stage_key: String,
    pub title: String,
    pub text_message: String,
    pub audio_url: String,
}

/// A scripted reply.
#[derive(Debug)]
pub enum StaticReply {
    /// A voice note at this address.
    Audio { url: String },
    /// A text message.
    Text { text: String },
}

pub const PUBLIC_BASE_URL: &'static str = "https://tubaraoia.lysia.tech";

/// An absolute address for an asset: addresses that already name
/// `http://` or `https://` are kept, paths are placed under the bot's
/// public site.
pub open spec fn full_audio_url_spec(url: Seq<char>) -> Seq<char> {
    if seq_starts_with(url, "http://"@) || seq_starts_with(url, "https://"@) {
        url
    } else {
        PUBLIC_BASE_URL@ + url
    }
}

/// An absolute address for an asset.
pub fn full_audio_url(url: &str) -> (r: String)
    ensures
        r@ == full_audio_url_spec(url@),
{
    if starts_with(url, "http://") || starts_with(url, "https://") {
        url.to_owned()
    } else {
        concat(PUBLIC_BASE_URL, url)
    }
}

/// The scripted reply of a stage: its recording when the client spoke
/// (the stage's own, or `default_audio` when it has none), else its text;
/// none when the stage is not configured or has nothing to send.
pub open spec fn static_reply_audio(cfg: StageConfig, default_audio: Seq<char>) -> Seq<char> {
    if trim_spec(cfg.audio_url@).len() == 0 {
        default_audio
    } else {
        cfg.audio_url@
    }
}

/// The scripted reply of a stage.
pub fn static_stage_reply(cfg: &Option<StageConfig>, default_audio: &str, client_audio: bool) -> (r: Option<StaticReply>)
    ensures
        match cfg {
            None => r is None,
            Some(c) => {
                let audio = static_reply_audio(*c, default_audio@);
                if client_audio && audio.len() > 0 {
                    r matches Some(StaticReply::Audio { url }) && url@ == full_audio_url_spec(audio)
                } else if c.text_message@.len() > 0 {
                    r matches Some(StaticReply::Text { text }) && text@ == c.text_message@
                } else {
                    r is None
                }
            },
        },
{
    match cfg {
        None => None,
        Some(c) => {
            let audio = if trim(c.audio_url.as_str()).as_str().is_empty() {
                default_audio.to_owned()
            } else {
                c.audio_url.clone()
            };
            if client_audio && !audio.as_str().is_empty() {
                Some(StaticReply::Audio { url: full_audio_url(audio.as_str()) })
            } else if !c.text_message.as_str().is_empty() {
                Some(StaticReply::Text { text: c.text_message.clone() })
            } else {
                None
            }
        },
    }
}

/// The prompt handed to the assistant: the client's words and the stage
/// the conversation is at, whose pending question the answer must close
/// with.
pub open spec fn stage_prompt_spec(user_prompt: Seq<char>, stage: Seq<char>) -> Seq<char> {
    user_prompt + "\n[INSTRUÇÃO DE ETAPA: O cliente está na etapa '"@ + stage
        + "'. Responda à dúvida dele de forma objetiva, cortês e formal (tom consultivo, sem entonação de locutor/político) e conclua a resposta fazendo a pergunta pendente da etapa '"@
        + stage + "']"@
}

/// The prompt handed to the assistant for a message at a stage.
pub fn stage_prompt(user_prompt: &str, stage: &str) -> (r: String)
    ensures
        r@ == stage_prompt_spec(user_prompt@, stage@),
{
    let a = concat(user_prompt, "\n[INSTRUÇÃO DE ETAPA: O cliente está na etapa '");
    let b = concat(a.as_str(), stage);
    let c = concat(
        b.as_str(),
        "'. Responda à dúvida dele de forma objetiva, cortês e formal (tom consultivo, sem entonação de locutor/político) e conclua a resposta fazendo a pergunta pendente da etapa '",
    );
    let d = concat(c.as_str(), stage);
    concat(d.as_str(), "']")
}

// ---------------------------------------------------------------------------
// The assistant's reply and the hand-over
// ---------------------------------------------------------------------------

/// The reply as sent, and whether it asks for a human attendant: when the
/// rotation is on and the reply holds the (non-empty) trigger keyword,
/// the keyword is removed and the rest trimmed.
pub open spec fn transfer_spec(rotation_enabled: bool, keyword: Seq<char>, reply: Seq<char>) -> (bool, Seq<char>) {
    if rotation_enabled && keyword.len() > 0 && seq_contains(reply, keyword) {
        (true, trim_spec(replace_all(reply, keyword, Seq::empty())))
    } else {
        (false, reply)
    }
}

/// Looks for the hand-over keyword in the assistant's reply.
pub fn detect_transfer(rotation_enabled: bool, keyword: &str, reply: &str) -> (r: (bool, String))
    ensures
        (r.0, r.1@) == transfer_spec(rotation_enabled, keyword@, reply@),
{
    proof {
        reveal_strlit("");
    }
    assert(""@ =~= Seq::<char>::empty());
    if rotation_enabled && !keyword.is_empty() && contains(reply, keyword) {
        let cleaned = replace(reply, keyword, "");
        (true, trim(cleaned.as_str()))
    } else {
        (false, reply.to_owned())
    }
}

/// Where the synthesised voice of a reply is kept: the public path and the
/// file, named by the reply's hash in hexadecimal.
pub fn audio_cache_paths(hash: u64) -> (r: (String, String))
    ensures
        r.0@ == "/assets/audio_cache/"@ + lower_hex(hash as nat) + ".mp3"@,
        r.1@ == "assets/audio_cache/"@ + lower_hex(hash as nat) + ".mp3"@,
{
    let hex = i64_to_lower_hex(hash as i64);
    assert(((hash as i64) as u64) == hash) by (bit_vector);
    let rel = concat(concat("/assets/audio_cache/", hex.as_str()).as_str(), ".mp3");
    let full = concat(concat("assets/audio_cache/", hex.as_str()).as_str(), ".mp3");
    (rel, full)
}

/// The attendants of the rotation that are online, in rotation order.
pub fn retain_online(candidates: &Vec<String>, online: &Vec<String>) -> (r: Vec<String>)
    ensures
        strings_view(r@) == strings_view(candidates@).filter(|c: Seq<char>| strings_view(online@).contains(c)),
{
    let ghost pred = |c: Seq<char>| strings_view(online@).contains(c);
    let mut r: Vec<String> = Vec::new();
    let mut i: usize = 0;
    assert(strings_view(candidates@).take(0).filter(pred) =~= Seq::<Seq<char>>::empty());
    while i < candidates.len()
        invariant
            i <= candidates.len(),
            pred == (|c: Seq<char>| strings_view(online@).contains(c)),
            strings_view(r@) == strings_view(candidates@).take(i as int).filter(pred),
        decreases candidates.len() - i,
    {
        let ghost cv = strings_view(candidates@);
        assert(cv.take(i + 1).drop_last() =~= cv.take(i as int));
        assert(cv.take(i + 1).last() == candidates@[i as int]@);
        proof {
            reveal_with_fuel(Seq::<_>::filter, 1);
        }
        if crate::webhook::contains_string(online, candidates[i].as_str()) {
            r.push(candidates[i].clone());
            assert(strings_view(r@) =~= cv.take(i as int).filter(pred).push(candidates@[i as int]@));
        }
        i = i + 1;
    }
    assert(strings_view(candidates@).take(candidates.len() as int) =~= strings_view(candidates@));
    r
}

/// The tag every handed-over chat receives ("FAZER ORÇAMENTO").
pub const QUOTE_TAG_ID: &'static str = "aQC8MBYhPaycNeGd";

/// The tags whose name holds the attendant's name (case aside).
pub open spec fn attendant_tags_of(items: Seq<JsonValue>, op_low: Seq<char>) -> Seq<Seq<char>>
    decreases items.len(),
{
    if items.len() == 0 {
        Seq::empty()
    } else {
        let t = Some(items.last());
        let id = as_str_spec(field_spec(t, "id"@));
        let name = as_str_spec(field_spec(t, "name"@));
        attendant_tags_of(items.drop_last(), op_low) + if id is Some && name is Some && seq_contains(
            unicode_lowercase(name->0),
            op_low,
        ) {
            seq![id->0]
        } else {
            Seq::empty()
        }
    }
}

pub open spec fn tag_items(tags: JsonValue) -> Seq<JsonValue> {
    match as_array_spec(field_spec(Some(tags), "items"@)) {
        Some(a) => a,
        None => Seq::empty(),
    }
}

/// The tags put on a handed-over chat: the quote tag, then the tags (of
/// the organisation's `items`) named after the attendant.
pub fn select_tag_ids(tags: &JsonValue, attendant: &str) -> (r: Vec<String>)
    ensures
        strings_view(r@) == seq![QUOTE_TAG_ID@] + attendant_tags_of(tag_items(*tags), unicode_lowercase(attendant@)),
{
    let op_low = to_lowercase(attendant);
    let mut r: Vec<String> = Vec::new();
    r.push(QUOTE_TAG_ID.to_owned());
    let items = as_array(field(Some(tags), "items"));
    match items {
        Some(a) => {
            let mut i: usize = 0;
            assert(strings_view(r@) =~= seq![QUOTE_TAG_ID@] + attendant_tags_of(a@.take(0), op_low@));
            while i < a.len()
                invariant
                    i <= a.len(),
                    strings_view(r@) == seq![QUOTE_TAG_ID@] + attendant_tags_of(a@.take(i as int), op_low@),
                decreases a.len() - i,
            {
                assert(a@.take(i + 1).drop_last() =~= a@.take(i as int));
                assert(a@.take(i + 1).last() == a@[i as int]);
                let t = Some(&a[i]);
                let id = as_str(field(t, "id"));
                let name = as_str(field(t, "name"));
                match (id, name) {
                    (Some(tid), Some(tname)) => {
                        if contains(to_lowercase(tname.as_str()).as_str(), op_low.as_str()) {
                            let ghost tv = tid@;
                            r.push(tid);
                            assert(strings_view(r@) =~= seq![QUOTE_TAG_ID@] + attendant_tags_of(a@.take(i as int), op_low@) + seq![tv]);
                        } else {
                            assert(strings_view(r@) =~= seq![QUOTE_TAG_ID@] + attendant_tags_of(a@.take(i + 1), op_low@));
                        }
                    },
                    _ => {
                        assert(strings_view(r@) =~= seq![QUOTE_TAG_ID@] + attendant_tags_of(a@.take(i + 1), op_low@));
                    },
                }
                i = i + 1;
            }
            assert(a@.take(a.len() as int) =~= a@);
            r
        },
        None => {
            assert(strings_view(r@) =~= seq![QUOTE_TAG_ID@] + attendant_tags_of(Seq::empty(), op_low@));
            r
        },
    }
}

/// The position of a scripted stage (the hand-over stage last).
pub open spec fn stage_rank(stage: Seq<char>) -> int {
    if stage == "STAGE_1"@ {
        1
    } else if stage == "STAGE_2"@ {
        2
    } else if stage == "STAGE_3"@ {
        3
    } else {
        4
    }
}

/// An expected answer moves the conversation exactly one stage forward.
pub proof fn law_expected_answer_advances_one_stage(stage: Seq<char>, text_low: Seq<char>)
    requires
        expected_answer_spec(stage, text_low),
    ensures
        stage_rank(next_stage_spec(stage)) == stage_rank(stage) + 1,
{
    reveal_strlit("STAGE_1");
    reveal_strlit("STAGE_2");
    reveal_strlit("STAGE_3");
    assert("STAGE_2"@ != "STAGE_1"@) by {
        assert("STAGE_2"@[6] != "STAGE_1"@[6]);
    }
    assert("STAGE_3"@ != "STAGE_1"@) by {
        assert("STAGE_3"@[6] != "STAGE_1"@[6]);
    }
    assert("STAGE_3"@ != "STAGE_2"@) by {
        assert("STAGE_3"@[6] != "STAGE_2"@[6]);
    }
}

/// With the rotation off, or no keyword in the reply, the reply is sent
/// as written and nobody is called.
pub proof fn law_no_keyword_no_transfer(rotation_enabled: bool, keyword: Seq<char>, reply: Seq<char>)
    requires
        !rotation_enabled || !seq_contains(reply, keyword),
    ensures
        transfer_spec(rotation_enabled, keyword, reply) == (false, reply),
{
}


/// At the first stage, an answer naming any water source the greeting
/// offers (poço, poco, rio, represa, cacimba, artesiano, arteziano,
/// cisterna) moves the chat on; at the second, one naming a depth or a
/// distance (metro, m, profund, distancia, caixa) does; at any other
/// stage nothing is a scripted answer.
pub proof fn law_stage_answers(text_low: Seq<char>, stage: Seq<char>)
    ensures
        seq_contains(text_low, "poço"@) ==> expected_answer_spec("STAGE_1"@, text_low),
        seq_contains(text_low, "poco"@) ==> expected_answer_spec("STAGE_1"@, text_low),
        seq_contains(text_low, "rio"@) ==> expected_answer_spec("STAGE_1"@, text_low),
        seq_contains(text_low, "represa"@) ==> expected_answer_spec("STAGE_1"@, text_low),
        seq_contains(text_low, "cacimba"@) ==> expected_answer_spec("STAGE_1"@, text_low),
        seq_contains(text_low, "artesiano"@) ==> expected_answer_spec("STAGE_1"@, text_low),
        seq_contains(text_low, "arteziano"@) ==> expected_answer_spec("STAGE_1"@, text_low),
        seq_contains(text_low, "cisterna"@) ==> expected_answer_spec("STAGE_1"@, text_low),
        seq_contains(text_low, "metro"@) ==> expected_answer_spec("STAGE_2"@, text_low),
        seq_contains(text_low, "m"@) ==> expected_answer_spec("STAGE_2"@, text_low),
        seq_contains(text_low, "profund"@) ==> expected_answer_spec("STAGE_2"@, text_low),
        seq_contains(text_low, "distancia"@) ==> expected_answer_spec("STAGE_2"@, text_low),
        seq_contains(text_low, "caixa"@) ==> expected_answer_spec("STAGE_2"@, text_low),
        stage != "STAGE_1"@ && stage != "STAGE_2"@ ==> !expected_answer_spec(stage, text_low),
{
    reveal_strlit("STAGE_1");
    reveal_strlit("STAGE_2");
    assert("STAGE_2"@ != "STAGE_1"@) by {
        assert("STAGE_2"@[6] != "STAGE_1"@[6]);
    }
    let s = source_words();
    assert(s[0] == "poço"@ && s[1] == "poco"@ && s[2] == "rio"@ && s[3] == "represa"@);
    assert(s[4] == "cacimba"@ && s[5] == "artesiano"@ && s[6] == "arteziano"@ && s[7] == "cisterna"@);
    let d = distance_words();
    assert(d[0] == "metro"@ && d[1] == "m"@ && d[2] == "profund"@ && d[3] == "distancia"@ && d[4] == "caixa"@);
}

} // verus!
