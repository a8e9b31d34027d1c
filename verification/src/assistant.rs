//! What the bot hands to the language models and reads back: the API
//! key, the system prompts (with the audio catalog or the documentation of
//! the external APIs), the conversation as chat messages, the Gemini model
//! fallbacks and tool calls, the external HTTP integrations, and the reading
//! of a reply for the hand-over tag and the audio it names.
use vstd::prelude::*;
use crate::catalog::AudioBankItem;
use crate::config::{ExternalApiHeader, ExternalApiIntegration};
use crate::history::ChatTurn;
use crate::json::{JsonValue, as_array, as_array_spec, as_str, as_str_spec, deref_opt, element, element_spec, field, field_spec};
use crate::prompts::{CATALOG_HEADER, DEEPSEEK_PROMPT_HEAD, DEEPSEEK_PROMPT_MIDDLE, GEMINI_PROMPT_RULES};
use crate::text::{
    concat, contains, find, first_occurrence, replace, replace_all, seq_contains, seq_starts_with,
    starts_with, str_eq, to_lowercase, to_uppercase, trim, trim_end_char, trim_end_char_spec,
    trim_spec, unicode_lowercase, unicode_uppercase, chars_of, slice_chars, string_of, occurs_at,
};
use crate::utalk::is_text_entry;

verus! {

// ---------------------------------------------------------------------------
// Keys
// ---------------------------------------------------------------------------

pub const MISSING_DEEPSEEK_KEY: &'static str = "Chave de API do DeepSeek não configurada no Painel ou nas Variáveis de Ambiente.";

pub const MISSING_GEMINI_KEY: &'static str = "GEMINI_API_KEY não foi configurada.";

pub const GEMINI_UNAVAILABLE: &'static str = "API do Gemini temporariamente indisponível devido a alta demanda do Google. Tente novamente em instientes.";

/// The DeepSeek key: the panel's (trimmed) when it is not blank, else the
/// `DEEPSEEK_API_KEY` environment variable (empty when unset).
pub open spec fn api_key_spec(configured: Seq<char>, env: Option<Seq<char>>) -> Seq<char> {
    if trim_spec(configured).len() > 0 {
        trim_spec(configured)
    } else {
        match env {
            Some(e) => e,
            None => Seq::empty(),
        }
    }
}

/// The DeepSeek key to use.
pub fn choose_api_key(configured: &str, env: Option<String>) -> (r: String)
    ensures
        r@ == api_key_spec(
            configured@,
            match env {
                Some(e) => Some(e@),
                None => None,
            },
        ),
{
    let t = trim(configured);
    if !t.as_str().is_empty() {
        t
    } else {
        match env {
            Some(e) => e,
            None => String::new(),
        }
    }
}

/// DeepSeek is not called without a key.
pub fn require_deepseek_key(key: &str) -> (r: Result<(), String>)
    ensures
        r is Ok <==> key@.len() > 0,
        r matches Err(e) ==> e@ == MISSING_DEEPSEEK_KEY@,
{
    if key.is_empty() {
        Err(MISSING_DEEPSEEK_KEY.to_owned())
    } else {
        Ok(())
    }
}

/// Gemini is not called without a key.
pub fn require_gemini_key(key: &str) -> (r: Result<(), String>)
    ensures
        r is Ok <==> key@.len() > 0,
        r matches Err(e) ==> e@ == MISSING_GEMINI_KEY@,
{
    if key.is_empty() {
        Err(MISSING_GEMINI_KEY.to_owned())
    } else {
        Ok(())
    }
}

// ---------------------------------------------------------------------------
// DeepSeek
// ---------------------------------------------------------------------------

/// One entry of the audio catalog.
pub open spec fn catalog_entry(i: AudioBankItem) -> Seq<char> {
    "- CHAVE: ["@ + i.key@ + "]\n  Intenção/Uso: "@ + i.description@ + "\n  Mensagem: "@ + i.text_message@
        + "\n\n"@
}

pub open spec fn catalog_entries(items: Seq<AudioBankItem>) -> Seq<char>
    decreases items.len(),
{
    if items.len() == 0 {
        Seq::empty()
    } else {
        catalog_entries(items.drop_last()) + catalog_entry(items.last())
    }
}

/// The catalog of pre-recorded audios shown to the model: each audio's
/// key, use and message.
pub fn catalog_text(items: &Vec<AudioBankItem>) -> (r: String)
    ensures
        r@ == CATALOG_HEADER@ + catalog_entries(items@),
{
    let mut r = CATALOG_HEADER.to_owned();
    let mut i: usize = 0;
    assert(items@.take(0) =~= Seq::<AudioBankItem>::empty());
    assert(r@ =~= CATALOG_HEADER@ + catalog_entries(items@.take(0)));
    while i < items.len()
        invariant
            i <= items.len(),
            r@ == CATALOG_HEADER@ + catalog_entries(items@.take(i as int)),
        decreases items.len() - i,
    {
        assert(items@.take(i + 1).drop_last() =~= items@.take(i as int));
        assert(items@.take(i + 1).last() == items@[i as int]);
        let it = &items[i];
        let a = concat(concat("- CHAVE: [", it.key.as_str()).as_str(), "]\n  Intenção/Uso: ");
        let b = concat(concat(a.as_str(), it.description.as_str()).as_str(), "\n  Mensagem: ");
        let c = concat(concat(b.as_str(), it.text_message.as_str()).as_str(), "\n\n");
        let ghost before = r@;
        r.append(c.as_str());
        assert(r@ =~= before + catalog_entry(*it));
        i = i + 1;
    }
    assert(items@.take(items.len() as int) =~= items@);
    r
}

/// DeepSeek's system prompt: the guard rules, the panel's prompt, then the
/// audio catalog.
pub fn deepseek_system_prompt(panel_prompt: &str, catalog: &str) -> (r: String)
    ensures
        r@ == DEEPSEEK_PROMPT_HEAD@ + panel_prompt@ + DEEPSEEK_PROMPT_MIDDLE@ + catalog@,
{
    let a = concat(DEEPSEEK_PROMPT_HEAD, panel_prompt);
    let b = concat(a.as_str(), DEEPSEEK_PROMPT_MIDDLE);
    concat(b.as_str(), catalog)
}

/// A chat message for DeepSeek.
#[derive(Debug)]
pub struct ChatMessage {
    pub role: String,
    pub content: String,
}

pub open spec fn message_view(m: ChatMessage) -> (Seq<char>, Seq<char>) {
    (m.role@, m.content@)
}

/// Turns of the model (or assistant) are the assistant's; all others the
/// user's.
pub open spec fn deepseek_role_spec(role: Seq<char>) -> Seq<char> {
    if role == "model"@ || role == "assistant"@ {
        "assistant"@
    } else {
        "user"@
    }
}

pub open spec fn history_messages(turns: Seq<ChatTurn>) -> Seq<(Seq<char>, Seq<char>)> {
    turns.map_values(|t: ChatTurn| (deepseek_role_spec(t.role@), t.text@))
}

/// The messages sent to DeepSeek: the system prompt, the history, then
/// the new message when there is one.
pub open spec fn deepseek_messages_spec(
    system_prompt: Seq<char>,
    turns: Seq<ChatTurn>,
    user_message: Option<Seq<char>>,
) -> Seq<(Seq<char>, Seq<char>)> {
    seq![("system"@, system_prompt)] + history_messages(turns) + match user_message {
        Some(m) => seq![("user"@, m)],
        None => Seq::empty(),
    }
}

/// The messages of a DeepSeek request.
pub fn deepseek_messages(system_prompt: &str, turns: &Vec<ChatTurn>, user_message: Option<&str>) -> (r: Vec<ChatMessage>)
    ensures
        r@.map_values(|m: ChatMessage| message_view(m)) == deepseek_messages_spec(
            system_prompt@,
            turns@,
            match user_message {
                Some(m) => Some(m@),
                None => None,
            },
        ),
{
    let mut r: Vec<ChatMessage> = Vec::new();
    r.push(ChatMessage { role: "system".to_owned(), content: system_prompt.to_owned() });
    let mut i: usize = 0;
    assert(r@.map_values(|m: ChatMessage| message_view(m)) =~= seq![("system"@, system_prompt@)] + history_messages(
        turns@.take(0),
    ));
    while i < turns.len()
        invariant
            i <= turns.len(),
            r@.map_values(|m: ChatMessage| message_view(m)) == seq![("system"@, system_prompt@)]
                + history_messages(turns@.take(i as int)),
        decreases turns.len() - i,
    {
        let t = &turns[i];
        let role = if str_eq(t.role.as_str(), "model") || str_eq(t.role.as_str(), "assistant") {
            "assistant".to_owned()
        } else {
            "user".to_owned()
        };
        let ghost before = r@.map_values(|m: ChatMessage| message_view(m));
        r.push(ChatMessage { role, content: t.text.clone() });
        assert(turns@.take(i + 1) =~= turns@.take(i as int).push(*t));
        assert(history_messages(turns@.take(i + 1)) =~= history_messages(turns@.take(i as int)).push(
            (deepseek_role_spec(t.role@), t.text@),
        ));
        assert(r@.map_values(|m: ChatMessage| message_view(m)) =~= before.push(
            (deepseek_role_spec(t.role@), t.text@),
        ));
        i = i + 1;
    }
    assert(turns@.take(turns.len() as int) =~= turns@);
    let ghost before = r@.map_values(|m: ChatMessage| message_view(m));
    match user_message {
        Some(m) => {
            r.push(ChatMessage { role: "user".to_owned(), content: m.to_owned() });
            assert(r@.map_values(|m: ChatMessage| message_view(m)) =~= before + seq![("user"@, m@)]);
        },
        None => {
            assert(before =~= before + Seq::<(Seq<char>, Seq<char>)>::empty());
        },
    }
    r
}

/// `choices[0].message.content` of a chat completion.
pub open spec fn choice_content_spec(v: JsonValue) -> Option<Seq<char>> {
    as_str_spec(field_spec(field_spec(element_spec(field_spec(Some(v), "choices"@), 0), "message"@), "content"@))
}

/// The text of a chat completion.
pub fn choice_content(v: &JsonValue) -> (r: Option<String>)
    ensures
        match r {
            Some(s) => choice_content_spec(*v) == Some(s@),
            None => choice_content_spec(*v) is None,
        },
{
    as_str(field(field(element(field(Some(v), "choices"), 0), "message"), "content"))
}

/// DeepSeek's answer: on success, the text of its first choice (an
/// answer that is not JSON is an error); any other answer is an error that
/// cites the status and body.
pub open spec fn deepseek_reply_spec(
    success: bool,
    status: Seq<char>,
    body: Seq<char>,
    parsed: Result<JsonValue, Seq<char>>,
) -> Result<Seq<char>, Seq<char>> {
    if success && parsed is Err {
        Err("Erro ao parsear JSON do DeepSeek: "@ + parsed->Err_0)
    } else if success && choice_content_spec(parsed->Ok_0) is Some {
        Ok(choice_content_spec(parsed->Ok_0)->0)
    } else {
        Err("Falha na API DeepSeek ["@ + status + "]: "@ + body)
    }
}

/// Reads DeepSeek's answer (`parsed`: the body as JSON, or why it is not).
pub fn deepseek_reply(success: bool, status: &str, body: &str, parsed: &Result<JsonValue, String>) -> (r: Result<String, String>)
    ensures
        match r {
            Ok(s) => deepseek_reply_spec(
                success,
                status@,
                body@,
                match parsed {
                    Ok(v) => Ok(*v),
                    Err(e) => Err(e@),
                },
            ) == Ok::<Seq<char>, Seq<char>>(s@),
            Err(e) => deepseek_reply_spec(
                success,
                status@,
                body@,
                match parsed {
                    Ok(v) => Ok(*v),
                    Err(e) => Err(e@),
                },
            ) == Err::<Seq<char>, Seq<char>>(e@),
        },
{
    if success {
        match parsed {
            Err(e) => {
                return Err(concat("Erro ao parsear JSON do DeepSeek: ", e.as_str()));
            },
            Ok(v) => {
                if let Some(c) = choice_content(v) {
                    return Ok(c);
                }
            },
        }
    }
    let a = concat(concat("Falha na API DeepSeek [", status).as_str(), "]: ");
    Err(concat(a.as_str(), body))
}

/// The model's answer with the code fences around its JSON removed.
pub open spec fn clean_summary_spec(content: Seq<char>) -> Seq<char> {
    trim_spec(replace_all(replace_all(content, "```json"@, Seq::empty()), "```"@, Seq::empty()))
}

/// Strips the code fences from the model's JSON answer.
pub fn clean_summary_text(content: &str) -> (r: String)
    ensures
        r@ == clean_summary_spec(content@),
{
    proof {
        reveal_strlit("```json");
        reveal_strlit("```");
        reveal_strlit("");
        assert(""@ =~= Seq::<char>::empty());
    }
    let a = replace(content, "```json", "");
    let b = replace(a.as_str(), "```", "");
    trim(b.as_str())
}

/// The project data reported when the model gives none.
pub fn fallback_project_summary() -> (r: JsonValue)
    ensures
        r matches JsonValue::Object(es) && es@.len() == 6
            && is_text_entry(es@[0], "fonte_agua"@, "Poço Artesiano / Rio"@)
            && is_text_entry(es@[1], "profundidade"@, "Informada na conversa"@)
            && is_text_entry(es@[2], "distancia"@, "Informada na conversa"@)
            && is_text_entry(es@[3], "vazao"@, "Informada na conversa"@)
            && is_text_entry(es@[4], "energia"@, "Solar / Elétrica"@)
            && is_text_entry(es@[5], "observacoes"@, "Triagem técnica concluída"@),
{
    let mut es: Vec<(String, JsonValue)> = Vec::new();
    es.push(("fonte_agua".to_owned(), JsonValue::Str("Poço Artesiano / Rio".to_owned())));
    es.push(("profundidade".to_owned(), JsonValue::Str("Informada na conversa".to_owned())));
    es.push(("distancia".to_owned(), JsonValue::Str("Informada na conversa".to_owned())));
    es.push(("vazao".to_owned(), JsonValue::Str("Informada na conversa".to_owned())));
    es.push(("energia".to_owned(), JsonValue::Str("Solar / Elétrica".to_owned())));
    es.push(("observacoes".to_owned(), JsonValue::Str("Triagem técnica concluída".to_owned())));
    JsonValue::Object(es)
}

// ---------------------------------------------------------------------------
// Gemini
// ---------------------------------------------------------------------------

/// The documentation of one enabled integration.
pub open spec fn api_doc_entry(api: ExternalApiIntegration) -> Seq<char> {
    "\n- **ID/Nome da API:** `"@ + api.id@ + "` ("@ + api.name@ + ")\n  - **Base URL:** "@ + api.base_url@
        + "\n  - **Documentação & Endpoints:** "@ + api.documentation@ + "\n"@
}

pub open spec fn api_docs(apis: Seq<ExternalApiIntegration>) -> Seq<char>
    decreases apis.len(),
{
    if apis.len() == 0 {
        Seq::empty()
    } else {
        api_docs(apis.drop_last()) + if apis.last().enabled {
            api_doc_entry(apis.last())
        } else {
            Seq::empty()
        }
    }
}

/// The documentation of the enabled integrations, in order.
pub fn api_documentation(apis: &Vec<ExternalApiIntegration>) -> (r: String)
    ensures
        r@ == api_docs(apis@),
{
    let mut r = String::new();
    let mut i: usize = 0;
    assert(r@ =~= api_docs(apis@.take(0)));
    while i < apis.len()
        invariant
            i <= apis.len(),
            r@ == api_docs(apis@.take(i as int)),
        decreases apis.len() - i,
    {
        assert(apis@.take(i + 1).drop_last() =~= apis@.take(i as int));
        assert(apis@.take(i + 1).last() == apis@[i as int]);
        let api = &apis[i];
        if api.enabled {
            let a = concat(concat("\n- **ID/Nome da API:** `", api.id.as_str()).as_str(), "` (");
            let b = concat(concat(a.as_str(), api.name.as_str()).as_str(), ")\n  - **Base URL:** ");
            let c = concat(
                concat(b.as_str(), api.base_url.as_str()).as_str(),
                "\n  - **Documentação & Endpoints:** ",
            );
            let d = concat(concat(c.as_str(), api.documentation.as_str()).as_str(), "\n");
            let ghost before = r@;
            r.append(d.as_str());
            assert(r@ =~= before + api_doc_entry(*api));
        } else {
            assert(api_docs(apis@.take(i + 1)) =~= api_docs(apis@.take(i as int)));
        }
        i = i + 1;
    }
    assert(apis@.take(apis.len() as int) =~= apis@);
    r
}

/// Gemini's system prompt: the panel's prompt, the rules, then the
/// documentation of the external APIs (or a note that there is none).
pub open spec fn gemini_system_prompt_spec(panel_prompt: Seq<char>, docs: Seq<char>) -> Seq<char> {
    panel_prompt + GEMINI_PROMPT_RULES@ + if docs.len() == 0 {
        "Nenhuma API externa cadastrada."@
    } else {
        docs
    }
}

/// Gemini's system prompt.
pub fn gemini_system_prompt(panel_prompt: &str, docs: &str) -> (r: String)
    ensures
        r@ == gemini_system_prompt_spec(panel_prompt@, docs@),
{
    let a = concat(panel_prompt, GEMINI_PROMPT_RULES);
    if docs.is_empty() {
        concat(a.as_str(), "Nenhuma API externa cadastrada.")
    } else {
        concat(a.as_str(), docs)
    }
}

/// The Gemini model tried first: the configured one (trimmed), or the
/// default when it is blank.
pub open spec fn primary_model_spec(configured: Seq<char>) -> Seq<char> {
    if trim_spec(configured).len() == 0 {
        "gemini-3.1-flash-lite"@
    } else {
        trim_spec(configured)
    }
}

/// The models tried in turn until one answers without error.
pub fn candidate_models(configured: &str) -> (r: Vec<String>)
    ensures
        r@.map_values(|s: String| s@) == seq![
            primary_model_spec(configured@),
            "gemini-2.5-flash"@,
            "gemini-1.5-flash"@,
        ],
{
    let t = trim(configured);
    let primary = if t.as_str().is_empty() {
        "gemini-3.1-flash-lite".to_owned()
    } else {
        t
    };
    let mut r: Vec<String> = Vec::new();
    r.push(primary);
    r.push("gemini-2.5-flash".to_owned());
    r.push("gemini-1.5-flash".to_owned());
    assert(r@.map_values(|s: String| s@) =~= seq![
        primary_model_spec(configured@),
        "gemini-2.5-flash"@,
        "gemini-1.5-flash"@,
    ]);
    r
}

/// The address that asks a Gemini model for content.
pub fn gemini_url(model: &str, api_key: &str) -> (r: String)
    ensures
        r@ == "https://generativelanguage.googleapis.com/v1beta/models/"@ + model@ + ":generateContent?key="@
            + api_key@,
{
    let a = concat("https://generativelanguage.googleapis.com/v1beta/models/", model);
    let b = concat(a.as_str(), ":generateContent?key=");
    concat(b.as_str(), api_key)
}

/// A model answered when its answer carries no `error`.
pub fn gemini_answered(data: &JsonValue) -> (b: bool)
    ensures
        b == (field_spec(Some(*data), "error"@) is None),
{
    field(Some(data), "error").is_none()
}

/// `candidates[0].content.parts` of an answer.
pub open spec fn answer_parts_spec(v: JsonValue) -> Option<Seq<JsonValue>> {
    as_array_spec(field_spec(field_spec(element_spec(field_spec(Some(v), "candidates"@), 0), "content"@), "parts"@))
}

/// The parts of an answer's first candidate.
pub fn answer_parts(v: &JsonValue) -> (r: Option<&Vec<JsonValue>>)
    ensures
        match r {
            Some(a) => answer_parts_spec(*v) == Some(a@),
            None => answer_parts_spec(*v) is None,
        },
{
    as_array(field(field(element(field(Some(v), "candidates"), 0), "content"), "parts"))
}

/// `candidates[0].content.parts[0].text` of an answer.
pub open spec fn final_text_spec(v: JsonValue) -> Option<Seq<char>> {
    as_str_spec(
        field_spec(
            element_spec(
                field_spec(field_spec(element_spec(field_spec(Some(v), "candidates"@), 0), "content"@), "parts"@),
                0,
            ),
            "text"@,
        ),
    )
}

/// The text that closes a tool call.
pub fn final_text(v: &JsonValue) -> (r: Option<String>)
    ensures
        match r {
            Some(s) => final_text_spec(*v) == Some(s@),
            None => final_text_spec(*v) is None,
        },
{
    as_str(field(element(field(field(element(field(Some(v), "candidates"), 0), "content"), "parts"), 0), "text"))
}

/// A tool the model may call.
#[derive(Debug, Clone, Copy, PartialEq, Eq, Structural)]
pub enum ToolKind {
    /// `request_external_api`.
    ExternalApi,
    /// `search_past_conversations`.
    SearchConversations,
    /// A name the bot does not offer.
    Unknown,
}

/// The tool a part of the answer calls, if it calls one.
pub open spec fn part_tool_spec(part: JsonValue) -> Option<ToolKind> {
    let fc = field_spec(Some(part), "functionCall"@);
    if fc is None {
        None
    } else {
        let name = match as_str_spec(field_spec(fc, "name"@)) {
            Some(n) => n,
            None => Seq::empty(),
        };
        if name == "request_external_api"@ {
            Some(ToolKind::ExternalApi)
        } else if name == "search_past_conversations"@ {
            Some(ToolKind::SearchConversations)
        } else {
            Some(ToolKind::Unknown)
        }
    }
}

/// The tool a part of the answer calls.
pub fn part_tool(part: &JsonValue) -> (r: Option<ToolKind>)
    ensures
        r == part_tool_spec(*part),
{
    let fc = field(Some(part), "functionCall");
    if fc.is_none() {
        return None;
    }
    proof {
        reveal_strlit("");
        assert(""@ =~= Seq::<char>::empty());
    }
    let name = match as_str(field(fc, "name")) {
        Some(n) => n,
        None => "".to_owned(),
    };
    if str_eq(name.as_str(), "request_external_api") {
        Some(ToolKind::ExternalApi)
    } else if str_eq(name.as_str(), "search_past_conversations") {
        Some(ToolKind::SearchConversations)
    } else {
        Some(ToolKind::Unknown)
    }
}

/// The text of a part of the answer.
pub fn part_text(part: &JsonValue) -> (r: Option<String>)
    ensures
        match r {
            Some(s) => as_str_spec(field_spec(Some(*part), "text"@)) == Some(s@),
            None => as_str_spec(field_spec(Some(*part), "text"@)) is None,
        },
{
    as_str(field(Some(part), "text"))
}

/// The arguments of a `request_external_api` call.
#[derive(Debug)]
pub struct FunctionCallArgs {
    pub integration_id: String,
    pub http_method: String,
    pub endpoint: String,
    pub params_json: Option<String>,
    pub payload_json: Option<String>,
}

/// The arguments of a `search_past_conversations` call.
#[derive(Debug)]
pub struct SearchConversationsArgs {
    pub query: String,
    pub chat_id: Option<String>,
}

// ---------------------------------------------------------------------------
// External integrations
// ---------------------------------------------------------------------------

/// An enabled integration whose id equals the requested one, or whose name
/// holds it (case aside).
pub open spec fn integration_matches(api: ExternalApiIntegration, requested: Seq<char>) -> bool {
    api.enabled && (unicode_lowercase(api.id@) == unicode_lowercase(requested) || seq_contains(
        unicode_lowercase(api.name@),
        unicode_lowercase(requested),
    ))
}

/// The integration called: the first that matches the request, else the
/// first enabled one; none when no integration is enabled.
pub open spec fn selected_integration_spec(apis: Seq<ExternalApiIntegration>, requested: Seq<char>, r: Option<usize>) -> bool {
    match r {
        Some(i) => {
            &&& i < apis.len()
            &&& if exists|j: int| 0 <= j < apis.len() && #[trigger] integration_matches(apis[j], requested) {
                &&& integration_matches(apis[i as int], requested)
                &&& forall|j: int| 0 <= j < i ==> !#[trigger] integration_matches(apis[j], requested)
            } else {
                &&& apis[i as int].enabled
                &&& forall|j: int| 0 <= j < i ==> !(#[trigger] apis[j]).enabled
            }
        },
        None => forall|j: int| 0 <= j < apis.len() ==> !(#[trigger] apis[j]).enabled,
    }
}

/// Picks the integration a tool call names.
pub fn select_integration(apis: &Vec<ExternalApiIntegration>, requested: &str) -> (r: Option<usize>)
    ensures
        selected_integration_spec(apis@, requested@, r),
{
    let want = to_lowercase(requested);
    let mut i: usize = 0;
    while i < apis.len()
        invariant
            i <= apis.len(),
            want@ == unicode_lowercase(requested@),
            forall|j: int| 0 <= j < i ==> !#[trigger] integration_matches(apis@[j], requested@),
        decreases apis.len() - i,
    {
        let api = &apis[i];
        if api.enabled && (str_eq(to_lowercase(api.id.as_str()).as_str(), want.as_str()) || contains(
            to_lowercase(api.name.as_str()).as_str(),
            want.as_str(),
        )) {
            assert(integration_matches(apis@[i as int], requested@));
            return Some(i);
        }
        assert(!integration_matches(apis@[i as int], requested@));
        i = i + 1;
    }
    assert(!exists|j: int| 0 <= j < apis@.len() && #[trigger] integration_matches(apis@[j], requested@));
    let mut k: usize = 0;
    while k < apis.len()
        invariant
            k <= apis.len(),
            !exists|j: int| 0 <= j < apis@.len() && #[trigger] integration_matches(apis@[j], requested@),
            forall|j: int| 0 <= j < k ==> !(#[trigger] apis@[j]).enabled,
        decreases apis.len() - k,
    {
        if apis[k].enabled {
            return Some(k);
        }
        k = k + 1;
    }
    None
}

/// The message reported when no integration can be called.
pub fn integration_not_found(requested: &str) -> (r: String)
    ensures
        r@ == "Erro: Integração '"@ + requested@ + "' não foi encontrada ou está desativada no painel."@,
{
    concat(concat("Erro: Integração '", requested).as_str(), "' não foi encontrada ou está desativada no painel.")
}

/// The address called: the endpoint itself when it is absolute, else the
/// integration's base address (without trailing slashes) joined to the
/// endpoint by one slash.
pub open spec fn target_url_spec(endpoint: Seq<char>, base_url: Seq<char>) -> Seq<char> {
    if seq_starts_with(endpoint, "http://"@) || seq_starts_with(endpoint, "https://"@) {
        endpoint
    } else {
        trim_end_char_spec(base_url, '/') + if seq_starts_with(endpoint, "/"@) {
            endpoint
        } else {
            "/"@ + endpoint
        }
    }
}

/// The address of an external call.
pub fn target_url(endpoint: &str, base_url: &str) -> (r: String)
    ensures
        r@ == target_url_spec(endpoint@, base_url@),
{
    if starts_with(endpoint, "http://") || starts_with(endpoint, "https://") {
        endpoint.to_owned()
    } else {
        let base = trim_end_char(base_url, '/');
        let path = if starts_with(endpoint, "/") {
            endpoint.to_owned()
        } else {
            concat("/", endpoint)
        };
        concat(base.as_str(), path.as_str())
    }
}

/// A relative endpoint meets the base address at exactly one slash:
/// adding a leading slash to the endpoint, or a trailing one to the base
/// address, changes nothing.
pub proof fn law_target_url_single_slash(endpoint: Seq<char>, base_url: Seq<char>)
    requires
        !seq_starts_with(endpoint, "http://"@),
        !seq_starts_with(endpoint, "https://"@),
        !seq_starts_with(endpoint, "/"@),
    ensures
        target_url_spec("/"@ + endpoint, base_url) == target_url_spec(endpoint, base_url),
        target_url_spec(endpoint, base_url.push('/')) == target_url_spec(endpoint, base_url),
        target_url_spec(endpoint, base_url) == trim_end_char_spec(base_url, '/') + "/"@ + endpoint,
{
    reveal_strlit("/");
    reveal_strlit("http://");
    reveal_strlit("https://");
    assert(base_url.push('/').drop_last() =~= base_url);
    let se = "/"@ + endpoint;
    assert(se.subrange(0, 1) =~= "/"@);
    assert(!seq_starts_with(se, "http://"@)) by {
        if seq_starts_with(se, "http://"@) {
            assert(se.subrange(0, 7)[0] == "http://"@[0]);
        }
    }
    assert(!seq_starts_with(se, "https://"@)) by {
        if seq_starts_with(se, "https://"@) {
            assert(se.subrange(0, 8)[0] == "https://"@[0]);
        }
    }
}

/// The HTTP verbs of an external call.
#[derive(Debug, Clone, Copy, PartialEq, Eq, Structural)]
pub enum HttpMethod {
    Get,
    Post,
    Put,
    Delete,
    Patch,
}

/// The verb requested (case aside); GET for anything else.
pub open spec fn http_method_spec(requested: Seq<char>) -> HttpMethod {
    let u = unicode_uppercase(requested);
    if u == "POST"@ {
        HttpMethod::Post
    } else if u == "PUT"@ {
        HttpMethod::Put
    } else if u == "DELETE"@ {
        HttpMethod::Delete
    } else if u == "PATCH"@ {
        HttpMethod::Patch
    } else {
        HttpMethod::Get
    }
}

/// The verb of an external call.
pub fn http_method(requested: &str) -> (r: HttpMethod)
    ensures
        r == http_method_spec(requested@),
{
    let u = to_uppercase(requested);
    if str_eq(u.as_str(), "GET") {
        proof {
            reveal_strlit("GET");
            reveal_strlit("POST");
            reveal_strlit("PUT");
            reveal_strlit("DELETE");
            reveal_strlit("PATCH");
            assert(u@ != "POST"@) by {
                assert(u@.len() != "POST"@.len());
            }
            assert(u@ != "PUT"@) by {
                assert(u@[0] != "PUT"@[0]);
            }
            assert(u@ != "DELETE"@) by {
                assert(u@.len() != "DELETE"@.len());
            }
            assert(u@ != "PATCH"@) by {
                assert(u@.len() != "PATCH"@.len());
            }
        }
        HttpMethod::Get
    } else if str_eq(u.as_str(), "POST") {
        HttpMethod::Post
    } else if str_eq(u.as_str(), "PUT") {
        HttpMethod::Put
    } else if str_eq(u.as_str(), "DELETE") {
        HttpMethod::Delete
    } else if str_eq(u.as_str(), "PATCH") {
        HttpMethod::Patch
    } else {
        HttpMethod::Get
    }
}

pub open spec fn header_view(h: ExternalApiHeader) -> (Seq<char>, Seq<char>) {
    (h.key@, h.value@)
}

/// The headers sent: those whose name is not blank, in order.
pub open spec fn sent_headers_spec(hs: Seq<ExternalApiHeader>) -> Seq<(Seq<char>, Seq<char>)> {
    hs.map_values(|h: ExternalApiHeader| header_view(h)).filter(
        |kv: (Seq<char>, Seq<char>)| trim_spec(kv.0).len() > 0,
    )
}

/// The headers of an external call.
pub fn request_headers(api: &ExternalApiIntegration) -> (r: Vec<(String, String)>)
    ensures
        r@.map_values(|kv: (String, String)| (kv.0@, kv.1@)) == sent_headers_spec(api.headers@),
{
    let hs = &api.headers;
    let ghost views = hs@.map_values(|h: ExternalApiHeader| header_view(h));
    let ghost pred = |kv: (Seq<char>, Seq<char>)| trim_spec(kv.0).len() > 0;
    let mut r: Vec<(String, String)> = Vec::new();
    let mut i: usize = 0;
    assert(views.take(0).filter(pred) =~= Seq::<(Seq<char>, Seq<char>)>::empty());
    while i < hs.len()
        invariant
            i <= hs.len(),
            views == hs@.map_values(|h: ExternalApiHeader| header_view(h)),
            pred == (|kv: (Seq<char>, Seq<char>)| trim_spec(kv.0).len() > 0),
            r@.map_values(|kv: (String, String)| (kv.0@, kv.1@)) == views.take(i as int).filter(pred),
        decreases hs.len() - i,
    {
        assert(views.take(i + 1).drop_last() =~= views.take(i as int));
        assert(views.take(i + 1).last() == header_view(hs@[i as int]));
        proof {
            reveal_with_fuel(Seq::<_>::filter, 1);
        }
        let h = &hs[i];
        if !trim(h.key.as_str()).as_str().is_empty() {
            let ghost before = r@.map_values(|kv: (String, String)| (kv.0@, kv.1@));
            r.push((h.key.clone(), h.value.clone()));
            assert(r@.map_values(|kv: (String, String)| (kv.0@, kv.1@)) =~= before.push(header_view(*h)));
        }
        i = i + 1;
    }
    assert(views.take(hs.len() as int) =~= views);
    r
}

// ---------------------------------------------------------------------------
// Reading a reply
// ---------------------------------------------------------------------------

/// The chat a simulation runs in: the given id (trimmed), or
/// `simulacao_demo` when it is blank.
pub fn simulation_chat_id(requested: &str) -> (r: String)
    ensures
        r@ == if trim_spec(requested@).len() == 0 {
            "simulacao_demo"@
        } else {
            trim_spec(requested@)
        },
{
    let t = trim(requested);
    if t.as_str().is_empty() {
        "simulacao_demo".to_owned()
    } else {
        t
    }
}

pub open spec fn find_spec(s: Seq<char>, p: Seq<char>) -> Option<int> {
    if seq_contains(s, p) {
        Some(choose|i: int| first_occurrence(s, p, i))
    } else {
        None
    }
}

proof fn lemma_first_occurrence_unique(s: Seq<char>, p: Seq<char>, i: int)
    requires
        first_occurrence(s, p, i),
    ensures
        find_spec(s, p) == Some(i),
{
    assert(seq_contains(s, p));
    assert(exists|k: int| first_occurrence(s, p, k));
    let k = choose|k: int| first_occurrence(s, p, k);
    if k < i {
        assert(!occurs_at(s, p, k));
    }
    if i < k {
        assert(!occurs_at(s, p, i));
    }
}

/// A reply read: its text as shown, whether it asks for a human
/// attendant, and the key of the audio it names.
#[derive(Debug)]
pub struct ParsedReply {
    pub text: String,
    pub is_transfer: bool,
    pub audio_key: Option<String>,
}

pub const TRANSFER_TAG: &'static str = "[TRANSFERIR]";

pub const AUDIO_KEY_TAG: &'static str = "[AUDIO_KEY:";

/// The reply without the hand-over tag (and trimmed) when it holds one.
pub open spec fn without_transfer_tag(reply: Seq<char>) -> Seq<char> {
    if seq_contains(reply, TRANSFER_TAG@) {
        trim_spec(replace_all(reply, TRANSFER_TAG@, Seq::empty()))
    } else {
        reply
    }
}

/// How a reply reads: the hand-over tag is removed; the first
/// `[AUDIO_KEY: ...]` tag that is closed by a `]` is cut out, its key
/// trimmed, and the rest of the text trimmed.
pub open spec fn parsed_reply_spec(reply: Seq<char>) -> (Seq<char>, bool, Option<Seq<char>>) {
    let t = without_transfer_tag(reply);
    let is_transfer = seq_contains(reply, TRANSFER_TAG@);
    match find_spec(t, AUDIO_KEY_TAG@) {
        None => (t, is_transfer, None),
        Some(pos) => match find_spec(t.skip(pos), "]"@) {
            None => (t, is_transfer, None),
            Some(e) => (
                trim_spec(t.take(pos) + t.skip(pos + e + 1)),
                is_transfer,
                Some(trim_spec(t.subrange(pos + 11, pos + e))),
            ),
        },
    }
}

/// Reads a reply of the model.
pub fn parse_ai_reply(reply: &str) -> (r: ParsedReply)
    ensures
        (r.text@, r.is_transfer, match r.audio_key {
            Some(k) => Some(k@),
            None => None,
        }) == parsed_reply_spec(reply@),
{
    proof {
        reveal_strlit("");
        reveal_strlit("[AUDIO_KEY:");
        reveal_strlit("]");
        reveal_strlit("[TRANSFERIR]");
        assert(""@ =~= Seq::<char>::empty());
    }
    let is_transfer = contains(reply, TRANSFER_TAG);
    let t = if is_transfer {
        trim(replace(reply, TRANSFER_TAG, "").as_str())
    } else {
        reply.to_owned()
    };
    assert(t@ == without_transfer_tag(reply@));
    match find(t.as_str(), AUDIO_KEY_TAG) {
        None => {
            assert(find_spec(t@, AUDIO_KEY_TAG@) is None);
            ParsedReply { text: t, is_transfer, audio_key: None }
        },
        Some(pos) => {
            proof {
                lemma_first_occurrence_unique(t@, AUDIO_KEY_TAG@, pos as int);
            }
            let v = chars_of(t.as_str());
            let rest = string_of(&slice_chars(&v, pos, v.len()));
            assert(v@.subrange(pos as int, v.len() as int) =~= t@.skip(pos as int));
            match find(rest.as_str(), "]") {
                None => {
                    assert(find_spec(rest@, "]"@) is None);
                    ParsedReply { text: t, is_transfer, audio_key: None }
                },
                Some(e) => {
                    proof {
                        lemma_first_occurrence_unique(rest@, "]"@, e as int);
                        assert(t@.subrange(pos as int, pos + 11) == AUDIO_KEY_TAG@);
                        if e < 11 {
                            assert(rest@.subrange(e as int, e + 1) =~= "]"@);
                            assert(rest@.subrange(e as int, e + 1)[0] == rest@[e as int]);
                            assert("]"@[0] == ']');
                            assert(rest@[e as int] == ']');
                            assert(t@[pos + e] == AUDIO_KEY_TAG@[e as int]);
                            assert(false);
                        }
                    }
                    let key = trim(string_of(&slice_chars(&v, pos + 11, pos + e)).as_str());
                    let head = slice_chars(&v, 0, pos);
                    let tail = slice_chars(&v, pos + e + 1, v.len());
                    let joined = concat(string_of(&head).as_str(), string_of(&tail).as_str());
                    assert(v@.subrange(0, pos as int) =~= t@.take(pos as int));
                    assert(v@.subrange(pos + e + 1, v.len() as int) =~= t@.skip(pos + e + 1));
                    ParsedReply { text: trim(joined.as_str()), is_transfer, audio_key: Some(key) }
                },
            }
        },
    }
}

/// The recording of the audio bank item with the given key; empty when
/// none has it.
pub open spec fn audio_url_for_key_spec(items: Seq<AudioBankItem>, key: Seq<char>) -> Seq<char>
    decreases items.len(),
{
    if items.len() == 0 {
        Seq::empty()
    } else if items[0].key@ == key {
        items[0].audio_url@
    } else {
        audio_url_for_key_spec(items.drop_first(), key)
    }
}

/// The recording that a reply's audio key names.
pub fn audio_url_for_key(items: &Vec<AudioBankItem>, key: &str) -> (r: String)
    ensures
        r@ == audio_url_for_key_spec(items@, key@),
{
    let mut i: usize = 0;
    assert(items@.skip(0) =~= items@);
    while i < items.len()
        invariant
            i <= items.len(),
            audio_url_for_key_spec(items@, key@) == audio_url_for_key_spec(items@.skip(i as int), key@),
        decreases items.len() - i,
    {
        assert(items@.skip(i as int).drop_first() =~= items@.skip(i + 1));
        assert(items@.skip(i as int)[0] == items@[i as int]);
        if str_eq(items[i].key.as_str(), key) {
            return items[i].audio_url.clone();
        }
        i = i + 1;
    }
    String::new()
}

/// How a reply is delivered: as audio (with its recording) when the client
/// spoke and the reply names a recording, else as text.
pub fn reply_delivery(client_audio: bool, audio_url: String) -> (r: (bool, String))
    ensures
        r.0 == (client_audio && audio_url@.len() > 0),
        r.1@ == if r.0 {
            audio_url@
        } else {
            Seq::empty()
        },
{
    if client_audio && !audio_url.as_str().is_empty() {
        (true, audio_url)
    } else {
        (false, String::new())
    }
}

/// A reply without the hand-over tag and without an audio tag is shown
/// as written, and asks for nobody.
pub proof fn law_plain_reply_unchanged(reply: Seq<char>)
    requires
        !seq_contains(reply, TRANSFER_TAG@),
        !seq_contains(reply, AUDIO_KEY_TAG@),
    ensures
        parsed_reply_spec(reply) == (reply, false, None::<Seq<char>>),
{
}


/// A reply that asks for the hand-over is shown without the tag: when the
/// reply holds `[TRANSFERIR]` and, once every tag is removed and the rest
/// trimmed, no audio tag, the text is exactly that cleaned reply and the
/// reply asks for the hand-over.  A reply without the tag asks for nobody.
pub proof fn law_transfer_tag_is_removed(reply: Seq<char>)
    ensures
        seq_contains(reply, TRANSFER_TAG@) && !seq_contains(
            trim_spec(replace_all(reply, TRANSFER_TAG@, Seq::empty())),
            AUDIO_KEY_TAG@,
        ) ==> parsed_reply_spec(reply) == (
            trim_spec(replace_all(reply, TRANSFER_TAG@, Seq::empty())),
            true,
            None::<Seq<char>>,
        ),
        !seq_contains(reply, TRANSFER_TAG@) ==> !parsed_reply_spec(reply).1,
        seq_contains(reply, TRANSFER_TAG@) ==> parsed_reply_spec(reply).1,
{
}

} // verus!
