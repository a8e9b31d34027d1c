//! A Gemini request as a state machine: the candidate models are asked in
//! turn until one answers without error; the parts of its first candidate
//! are then read in order, a tool call is run and its result sent back to
//! the same model, and the first text found is the reply.  The caller
//! performs the requests and the tools and reports their results.
use vstd::prelude::*;
use crate::assistant::{
    GEMINI_UNAVAILABLE, ToolKind, answer_parts, answer_parts_spec, candidate_models, gemini_answered,
    gemini_url, part_text, part_tool, part_tool_spec, primary_model_spec,
};
use crate::history::ChatTurn;
use crate::json::{JsonValue, as_str_spec, field_spec};
use crate::prompts::AUDIO_INSTRUCTION;
use crate::utalk::is_text_entry;
use crate::webhook::strings_view;

verus! {

/// Which result the request waits for.
#[derive(Debug, Clone, Copy, PartialEq, Eq, Structural)]
pub enum GeminiPhase {
    /// The answer of the model last asked.
    AwaitModel,
    /// The result of a tool.
    AwaitTool,
    /// The model's answer to a tool's result.
    AwaitFinal,
    /// Nothing is left to do.
    Finished,
}

/// A Gemini request under way.
#[derive(Debug)]
pub struct GeminiFlow {
    pub phase: GeminiPhase,
    /// The models tried in turn.
    pub models: Vec<String>,
    pub api_key: String,
    /// The model last asked.
    pub model_index: usize,
    /// The address of the model last asked.
    pub url: String,
    /// The answer being read.
    pub answer: JsonValue,
    /// The part whose tool call runs.
    pub part_index: usize,
    /// The tool that runs.
    pub tool: ToolKind,
}

/// The result of the last action.
#[derive(Debug)]
pub enum GeminiEvent {
    /// The model's answer (`None` when it could not be had or read).
    ModelReplied { data: Option<JsonValue> },
    /// The tool's result, or why it could not run.
    ToolDone { result: Result<String, String> },
    /// The text closing the tool call (`Ok(None)` when the answer has
    /// none), or why the answer could not be had.
    FinalAnswer { text: Result<Option<String>, String> },
}

/// What the caller does next.
#[derive(Debug)]
pub enum GeminiAction {
    /// Ask the model at `url` (after a pause when the previous model was
    /// overloaded).
    CallModel { url: String, pause_first: bool },
    /// Run the tool that part `part_index` of the answer calls.
    RunTool { tool: ToolKind, part_index: usize },
    /// Send the tool's result back to the model at `url`.
    SendToolResult { url: String, tool: ToolKind, result: String },
    /// The reply (stored as the model's turn).
    Reply { text: String },
    /// The request failed.
    Fail { error: String },
    /// The answer holds neither a text nor a tool call.
    Unexpected,
}

/// A request as a mathematical value.
#[verifier::ext_equal]
pub struct GeminiFlowView {
    pub phase: GeminiPhase,
    pub models: Seq<Seq<char>>,
    pub api_key: Seq<char>,
    pub model_index: int,
    pub url: Seq<char>,
    pub answer: JsonValue,
    pub part_index: int,
    pub tool: ToolKind,
}

impl View for GeminiFlow {
    type V = GeminiFlowView;

    open spec fn view(&self) -> GeminiFlowView {
        GeminiFlowView {
            phase: self.phase,
            models: strings_view(self.models@),
            api_key: self.api_key@,
            model_index: self.model_index as int,
            url: self.url@,
            answer: self.answer,
            part_index: self.part_index as int,
            tool: self.tool,
        }
    }
}

/// An action as a mathematical value.
#[verifier::ext_equal]
pub enum GeminiActionView {
    CallModel { url: Seq<char>, pause_first: bool },
    RunTool { tool: ToolKind, part_index: int },
    SendToolResult { url: Seq<char>, tool: ToolKind, result: Seq<char> },
    Reply { text: Seq<char> },
    Fail { error: Seq<char> },
    Unexpected,
}

impl View for GeminiAction {
    type V = GeminiActionView;

    open spec fn view(&self) -> GeminiActionView {
        match self {
            GeminiAction::CallModel { url, pause_first } => GeminiActionView::CallModel {
                url: url@,
                pause_first: *pause_first,
            },
            GeminiAction::RunTool { tool, part_index } => GeminiActionView::RunTool {
                tool: *tool,
                part_index: *part_index as int,
            },
            GeminiAction::SendToolResult { url, tool, result } => GeminiActionView::SendToolResult {
                url: url@,
                tool: *tool,
                result: result@,
            },
            GeminiAction::Reply { text } => GeminiActionView::Reply { text: text@ },
            GeminiAction::Fail { error } => GeminiActionView::Fail { error: error@ },
            GeminiAction::Unexpected => GeminiActionView::Unexpected,
        }
    }
}

// ---------------------------------------------------------------------------
// The transitions
// ---------------------------------------------------------------------------

/// The address that asks a model.
pub open spec fn model_url(model: Seq<char>, api_key: Seq<char>) -> Seq<char> {
    "https://generativelanguage.googleapis.com/v1beta/models/"@ + model + ":generateContent?key="@ + api_key
}

/// Whether a part of the answer calls one of the bot's tools.
pub open spec fn calls_tool(p: JsonValue) -> bool {
    part_tool_spec(p) == Some(ToolKind::ExternalApi) || part_tool_spec(p) == Some(ToolKind::SearchConversations)
}

pub open spec fn part_text_spec(p: JsonValue) -> Option<Seq<char>> {
    as_str_spec(field_spec(Some(p), "text"@))
}

/// Reading the parts from `j` on (the tool of part `j` already ran when
/// `tool_done`): the first tool call runs, the first text is the reply;
/// with neither, the answer is unexpected.
pub open spec fn scan_spec(ps: Seq<JsonValue>, j: int, tool_done: bool) -> GeminiActionView
    decreases ps.len() - j,
{
    if j < 0 || j >= ps.len() {
        GeminiActionView::Unexpected
    } else if !tool_done && calls_tool(ps[j]) {
        GeminiActionView::RunTool { tool: part_tool_spec(ps[j])->0, part_index: j }
    } else {
        match part_text_spec(ps[j]) {
            Some(t) => GeminiActionView::Reply { text: t },
            None => scan_spec(ps, j + 1, false),
        }
    }
}

/// Reading an answer: without parts it is unexpected.
pub open spec fn read_spec(answer: JsonValue, j: int, tool_done: bool) -> GeminiActionView {
    match answer_parts_spec(answer) {
        Some(ps) => scan_spec(ps, j, tool_done),
        None => GeminiActionView::Unexpected,
    }
}

/// The request after reading: waiting for the tool that runs, or done.
pub open spec fn after_read(v: GeminiFlowView, a: GeminiActionView) -> GeminiFlowView {
    match a {
        GeminiActionView::RunTool { tool, part_index } => GeminiFlowView {
            phase: GeminiPhase::AwaitTool,
            part_index,
            tool,
            ..v
        },
        _ => GeminiFlowView { phase: GeminiPhase::Finished, ..v },
    }
}

pub open spec fn finished_with(v: GeminiFlowView, a: GeminiActionView) -> (GeminiFlowView, GeminiActionView) {
    (GeminiFlowView { phase: GeminiPhase::Finished, ..v }, a)
}

/// The start: the first candidate model is asked.
pub open spec fn gemini_start_spec(configured_model: Seq<char>, api_key: Seq<char>) -> (GeminiFlowView, GeminiActionView) {
    let models = seq![primary_model_spec(configured_model), "gemini-2.5-flash"@, "gemini-1.5-flash"@];
    let url = model_url(models[0], api_key);
    (
        GeminiFlowView {
            phase: GeminiPhase::AwaitModel,
            models,
            api_key,
            model_index: 0,
            url,
            answer: JsonValue::Null,
            part_index: 0,
            tool: ToolKind::Unknown,
        },
        GeminiActionView::CallModel { url, pause_first: false },
    )
}

/// A model answered: its answer is read.  Otherwise the next model is
/// asked (after a pause when the model answered with an error); when none
/// is left, the request fails.
pub open spec fn model_replied_spec(v: GeminiFlowView, data: Option<JsonValue>) -> (GeminiFlowView, GeminiActionView) {
    if data is Some && field_spec(data, "error"@) is None {
        let a = read_spec(data->0, 0, false);
        (after_read(GeminiFlowView { answer: data->0, ..v }, a), a)
    } else if 0 <= v.model_index && v.model_index + 1 < v.models.len() {
        let url = model_url(v.models[v.model_index + 1], v.api_key);
        (
            GeminiFlowView { model_index: v.model_index + 1, url, ..v },
            GeminiActionView::CallModel { url, pause_first: data is Some },
        )
    } else {
        finished_with(v, GeminiActionView::Fail { error: GEMINI_UNAVAILABLE@ })
    }
}

/// One step of a request.
pub open spec fn gemini_step_spec(f: GeminiFlow, e: GeminiEvent) -> (GeminiFlowView, GeminiActionView) {
    let v = f@;
    match f.phase {
        GeminiPhase::AwaitModel => match e {
            GeminiEvent::ModelReplied { data } => model_replied_spec(v, data),
            _ => finished_with(v, GeminiActionView::Unexpected),
        },
        GeminiPhase::AwaitTool => match e {
            GeminiEvent::ToolDone { result } => match result {
                Ok(r) => (
                    GeminiFlowView { phase: GeminiPhase::AwaitFinal, ..v },
                    GeminiActionView::SendToolResult { url: v.url, tool: v.tool, result: r@ },
                ),
                Err(err) => finished_with(v, GeminiActionView::Fail { error: err@ }),
            },
            _ => finished_with(v, GeminiActionView::Unexpected),
        },
        GeminiPhase::AwaitFinal => match e {
            GeminiEvent::FinalAnswer { text } => match text {
                Ok(Some(t)) => finished_with(v, GeminiActionView::Reply { text: t@ }),
                Ok(None) => {
                    let a = read_spec(v.answer, v.part_index, true);
                    (after_read(v, a), a)
                },
                Err(err) => finished_with(v, GeminiActionView::Fail { error: err@ }),
            },
            _ => finished_with(v, GeminiActionView::Unexpected),
        },
        GeminiPhase::Finished => finished_with(v, GeminiActionView::Unexpected),
    }
}

// ---------------------------------------------------------------------------
// The steps
// ---------------------------------------------------------------------------

pub open spec fn tool_name_spec(t: ToolKind) -> Seq<char> {
    match t {
        ToolKind::ExternalApi => "request_external_api"@,
        ToolKind::SearchConversations => "search_past_conversations"@,
        ToolKind::Unknown => Seq::empty(),
    }
}

/// The name under which the model calls a tool, and under which its
/// result is sent back.
pub fn tool_name(t: ToolKind) -> (r: String)
    ensures
        r@ == tool_name_spec(t),
{
    match t {
        ToolKind::ExternalApi => "request_external_api".to_owned(),
        ToolKind::SearchConversations => "search_past_conversations".to_owned(),
        ToolKind::Unknown => String::new(),
    }
}

fn scan_parts(ps: &Vec<JsonValue>, start: usize, tool_done: bool) -> (a: GeminiAction)
    ensures
        a@ == scan_spec(ps@, start as int, tool_done),
{
    let mut j = start;
    let mut done = tool_done;
    while j < ps.len()
        invariant
            start <= j,
            j == start || !done,
            done ==> j == start && done == tool_done,
            scan_spec(ps@, j as int, done) == scan_spec(ps@, start as int, tool_done),
        decreases ps.len() - j,
    {
        let p = &ps[j];
        if !done {
            match part_tool(p) {
                Some(ToolKind::ExternalApi) => {
                    return GeminiAction::RunTool { tool: ToolKind::ExternalApi, part_index: j };
                },
                Some(ToolKind::SearchConversations) => {
                    return GeminiAction::RunTool { tool: ToolKind::SearchConversations, part_index: j };
                },
                _ => {},
            }
        }
        match part_text(p) {
            Some(t) => {
                return GeminiAction::Reply { text: t };
            },
            None => {},
        }
        j = j + 1;
        done = false;
    }
    GeminiAction::Unexpected
}

fn read_answer(answer: &JsonValue, start: usize, tool_done: bool) -> (a: GeminiAction)
    ensures
        a@ == read_spec(*answer, start as int, tool_done),
{
    match answer_parts(answer) {
        Some(ps) => scan_parts(ps, start, tool_done),
        None => GeminiAction::Unexpected,
    }
}

fn settle(f: GeminiFlow, a: GeminiAction) -> (r: (GeminiFlow, GeminiAction))
    ensures
        r.0@ == after_read(f@, a@),
        r.1@ == a@,
{
    let mut f = f;
    match &a {
        GeminiAction::RunTool { tool, part_index } => {
            f.phase = GeminiPhase::AwaitTool;
            f.part_index = *part_index;
            f.tool = *tool;
        },
        _ => {
            f.phase = GeminiPhase::Finished;
        },
    }
    (f, a)
}

fn finish_with(f: GeminiFlow, a: GeminiAction) -> (r: (GeminiFlow, GeminiAction))
    ensures
        r.0@ == finished_with(f@, a@).0,
        r.1@ == a@,
{
    let mut f = f;
    f.phase = GeminiPhase::Finished;
    (f, a)
}

/// Starts a Gemini request with the configured model and the API key.
pub fn gemini_start(configured_model: &str, api_key: &str) -> (r: (GeminiFlow, GeminiAction))
    ensures
        r.0@ == gemini_start_spec(configured_model@, api_key@).0,
        r.1@ == gemini_start_spec(configured_model@, api_key@).1,
{
    let models = candidate_models(configured_model);
    assert(models@.map_values(|s: String| s@).len() == 3);
    assert(models@.map_values(|s: String| s@)[0] == models@[0]@);
    let url = gemini_url(models[0].as_str(), api_key);
    let f = GeminiFlow {
        phase: GeminiPhase::AwaitModel,
        models,
        api_key: api_key.to_owned(),
        model_index: 0,
        url: url.clone(),
        answer: JsonValue::Null,
        part_index: 0,
        tool: ToolKind::Unknown,
    };
    (f, GeminiAction::CallModel { url, pause_first: false })
}

/// One step of a Gemini request: from the result of the last action to
/// the next one.
pub fn gemini_step(f: GeminiFlow, e: GeminiEvent) -> (r: (GeminiFlow, GeminiAction))
    ensures
        r.0@ == gemini_step_spec(f, e).0,
        r.1@ == gemini_step_spec(f, e).1,
{
    match f.phase {
        GeminiPhase::AwaitModel => match e {
            GeminiEvent::ModelReplied { data } => {
                let answered = match &data {
                    Some(d) => gemini_answered(d),
                    None => false,
                };
                if answered {
                    match data {
                        Some(d) => {
                            let a = read_answer(&d, 0, false);
                            let mut f = f;
                            f.answer = d;
                            settle(f, a)
                        },
                        None => finish_with(f, GeminiAction::Unexpected),
                    }
                } else if f.model_index < f.models.len() && f.model_index + 1 < f.models.len() {
                    let next = f.model_index + 1;
                    let url = gemini_url(f.models[next].as_str(), f.api_key.as_str());
                    let mut f = f;
                    f.model_index = next;
                    f.url = url.clone();
                    (f, GeminiAction::CallModel { url, pause_first: data.is_some() })
                } else {
                    finish_with(f, GeminiAction::Fail { error: GEMINI_UNAVAILABLE.to_owned() })
                }
            },
            _ => finish_with(f, GeminiAction::Unexpected),
        },
        GeminiPhase::AwaitTool => match e {
            GeminiEvent::ToolDone { result } => match result {
                Ok(r) => {
                    let url = f.url.clone();
                    let tool = f.tool;
                    let mut f = f;
                    f.phase = GeminiPhase::AwaitFinal;
                    (f, GeminiAction::SendToolResult { url, tool, result: r })
                },
                Err(err) => finish_with(f, GeminiAction::Fail { error: err }),
            },
            _ => finish_with(f, GeminiAction::Unexpected),
        },
        GeminiPhase::AwaitFinal => match e {
            GeminiEvent::FinalAnswer { text } => match text {
                Ok(Some(t)) => finish_with(f, GeminiAction::Reply { text: t }),
                Ok(None) => {
                    let a = read_answer(&f.answer, f.part_index, true);
                    settle(f, a)
                },
                Err(err) => finish_with(f, GeminiAction::Fail { error: err }),
            },
            _ => finish_with(f, GeminiAction::Unexpected),
        },
        GeminiPhase::Finished => finish_with(f, GeminiAction::Unexpected),
    }
}


// ---------------------------------------------------------------------------
// The request body
// ---------------------------------------------------------------------------

/// `{"role": role, "parts": [{"text": text}]}`.
pub open spec fn is_text_turn(j: JsonValue, role: Seq<char>, text: Seq<char>) -> bool {
    &&& j matches JsonValue::Object(es)
    &&& es@.len() == 2
    &&& is_text_entry(es@[0], "role"@, role)
    &&& es@[1].0@ == "parts"@
    &&& es@[1].1 matches JsonValue::Array(ps)
    &&& ps@.len() == 1
    &&& ps@[0] matches JsonValue::Object(pe)
    &&& pe@.len() == 1
    &&& is_text_entry(pe@[0], "text"@, text)
}

/// `{"role": "user", "parts": [{"inline_data": {"mime_type": mime,
/// "data": data}}, {"text": AUDIO_INSTRUCTION}]}`.
pub open spec fn is_audio_turn(j: JsonValue, mime: Seq<char>, data: Seq<char>) -> bool {
    &&& j matches JsonValue::Object(es)
    &&& es@.len() == 2
    &&& is_text_entry(es@[0], "role"@, "user"@)
    &&& es@[1].0@ == "parts"@
    &&& es@[1].1 matches JsonValue::Array(ps)
    &&& ps@.len() == 2
    &&& ps@[0] matches JsonValue::Object(inline)
    &&& inline@.len() == 1
    &&& inline@[0].0@ == "inline_data"@
    &&& inline@[0].1 matches JsonValue::Object(media)
    &&& media@.len() == 2
    &&& is_text_entry(media@[0], "mime_type"@, mime)
    &&& is_text_entry(media@[1], "data"@, data)
    &&& ps@[1] matches JsonValue::Object(instr)
    &&& instr@.len() == 1
    &&& is_text_entry(instr@[0], "text"@, AUDIO_INSTRUCTION@)
}

/// `{"role": "user", "parts": [{"functionResponse": {"name": name,
/// "response": {"name": name, "content": content}}}]}`.
pub open spec fn is_function_response_turn(j: JsonValue, name: Seq<char>, content: Seq<char>) -> bool {
    &&& j matches JsonValue::Object(es)
    &&& es@.len() == 2
    &&& is_text_entry(es@[0], "role"@, "user"@)
    &&& es@[1].0@ == "parts"@
    &&& es@[1].1 matches JsonValue::Array(ps)
    &&& ps@.len() == 1
    &&& ps@[0] matches JsonValue::Object(pe)
    &&& pe@.len() == 1
    &&& pe@[0].0@ == "functionResponse"@
    &&& pe@[0].1 matches JsonValue::Object(fr)
    &&& fr@.len() == 2
    &&& is_text_entry(fr@[0], "name"@, name)
    &&& fr@[1].0@ == "response"@
    &&& fr@[1].1 matches JsonValue::Object(resp)
    &&& resp@.len() == 2
    &&& is_text_entry(resp@[0], "name"@, name)
    &&& is_text_entry(resp@[1], "content"@, content)
}

fn text_value(key: &str, value: &str) -> (r: (String, JsonValue))
    ensures
        is_text_entry(r, key@, value@),
{
    (key.to_owned(), JsonValue::Str(value.to_owned()))
}

fn text_turn(role: &str, text: &str) -> (j: JsonValue)
    ensures
        is_text_turn(j, role@, text@),
{
    let mut part: Vec<(String, JsonValue)> = Vec::new();
    part.push(text_value("text", text));
    let mut parts: Vec<JsonValue> = Vec::new();
    parts.push(JsonValue::Object(part));
    let mut es: Vec<(String, JsonValue)> = Vec::new();
    es.push(text_value("role", role));
    es.push(("parts".to_owned(), JsonValue::Array(parts)));
    JsonValue::Object(es)
}

fn audio_turn(mime: &str, data: &str) -> (j: JsonValue)
    ensures
        is_audio_turn(j, mime@, data@),
{
    let mut media: Vec<(String, JsonValue)> = Vec::new();
    media.push(text_value("mime_type", mime));
    media.push(text_value("data", data));
    let mut inline: Vec<(String, JsonValue)> = Vec::new();
    inline.push(("inline_data".to_owned(), JsonValue::Object(media)));
    let mut instr: Vec<(String, JsonValue)> = Vec::new();
    instr.push(text_value("text", AUDIO_INSTRUCTION));
    let mut parts: Vec<JsonValue> = Vec::new();
    parts.push(JsonValue::Object(inline));
    parts.push(JsonValue::Object(instr));
    let mut es: Vec<(String, JsonValue)> = Vec::new();
    es.push(text_value("role", "user"));
    es.push(("parts".to_owned(), JsonValue::Array(parts)));
    JsonValue::Object(es)
}

/// The turn that hands a tool's result back to the model.
pub fn function_response_turn(name: &str, content: &str) -> (j: JsonValue)
    ensures
        is_function_response_turn(j, name@, content@),
{
    let mut resp: Vec<(String, JsonValue)> = Vec::new();
    resp.push(text_value("name", name));
    resp.push(text_value("content", content));
    let mut fr: Vec<(String, JsonValue)> = Vec::new();
    fr.push(text_value("name", name));
    fr.push(("response".to_owned(), JsonValue::Object(resp)));
    let mut pe: Vec<(String, JsonValue)> = Vec::new();
    pe.push(("functionResponse".to_owned(), JsonValue::Object(fr)));
    let mut parts: Vec<JsonValue> = Vec::new();
    parts.push(JsonValue::Object(pe));
    let mut es: Vec<(String, JsonValue)> = Vec::new();
    es.push(text_value("role", "user"));
    es.push(("parts".to_owned(), JsonValue::Array(parts)));
    JsonValue::Object(es)
}

/// The contents of a Gemini request: the history, one turn per message,
/// then the client's turn: its recording with the instruction to answer
/// it, or its text.
pub fn gemini_contents(turns: &Vec<ChatTurn>, user_message: &str, audio: Option<(&str, &str)>) -> (r: Vec<JsonValue>)
    ensures
        r@.len() == turns@.len() + 1,
        forall|i: int| 0 <= i < turns@.len() ==> is_text_turn(#[trigger] r@[i], turns@[i].role@, turns@[i].text@),
        match audio {
            Some((mime, data)) => is_audio_turn(r@[turns@.len() as int], mime@, data@),
            None => is_text_turn(r@[turns@.len() as int], "user"@, user_message@),
        },
{
    let mut r: Vec<JsonValue> = Vec::new();
    let mut i: usize = 0;
    while i < turns.len()
        invariant
            i <= turns.len(),
            r@.len() == i,
            forall|k: int| 0 <= k < i ==> is_text_turn(#[trigger] r@[k], turns@[k].role@, turns@[k].text@),
        decreases turns.len() - i,
    {
        r.push(text_turn(turns[i].role.as_str(), turns[i].text.as_str()));
        i = i + 1;
    }
    match audio {
        Some((mime, data)) => r.push(audio_turn(mime, data)),
        None => r.push(text_turn("user", user_message)),
    }
    r
}

// ---------------------------------------------------------------------------
// Laws
// ---------------------------------------------------------------------------

/// A tool runs only for a part of the answer that calls it, never before
/// the part reading starts, and after a part's tool only for a later part.
pub proof fn lemma_scan_runs_calling_part(ps: Seq<JsonValue>, j: int, tool_done: bool)
    ensures
        scan_spec(ps, j, tool_done) matches GeminiActionView::RunTool { tool, part_index } ==> {
            &&& 0 <= part_index < ps.len()
            &&& calls_tool(ps[part_index])
            &&& Some(tool) == part_tool_spec(ps[part_index])
            &&& j <= part_index
            &&& tool_done ==> j < part_index
        },
        scan_spec(ps, j, tool_done) is Unexpected || scan_spec(ps, j, tool_done) is RunTool || scan_spec(
            ps,
            j,
            tool_done,
        ) is Reply,
    decreases ps.len() - j,
{
    if 0 <= j < ps.len() && !(!tool_done && calls_tool(ps[j])) && part_text_spec(ps[j]) is None {
        lemma_scan_runs_calling_part(ps, j + 1, false);
    }
}

/// The candidate models are asked in order, each at most once: a model
/// that does not answer is followed by the next one, and the request fails
/// when none is left.
pub proof fn law_gemini_models_in_order(f: GeminiFlow, data: Option<JsonValue>)
    requires
        f.phase == GeminiPhase::AwaitModel,
        !(data is Some && field_spec(data, "error"@) is None),
    ensures
        ({
            let (n, a) = gemini_step_spec(f, GeminiEvent::ModelReplied { data });
            if 0 <= f@.model_index && f@.model_index + 1 < f@.models.len() {
                &&& n.phase == GeminiPhase::AwaitModel
                &&& n.model_index == f@.model_index + 1
                &&& a == GeminiActionView::CallModel {
                    url: model_url(f@.models[f@.model_index + 1], f@.api_key),
                    pause_first: data is Some,
                }
            } else {
                &&& n.phase == GeminiPhase::Finished
                &&& a == GeminiActionView::Fail { error: GEMINI_UNAVAILABLE@ }
            }
        }),
{
}

/// Whether the event is an answer of the model without error.
pub open spec fn model_answered(e: GeminiEvent) -> bool {
    match e {
        GeminiEvent::ModelReplied { data } => data is Some && field_spec(data, "error"@) is None,
        _ => false,
    }
}

/// A tool's result goes back to the model that asked for the tool: the
/// address of the model that answered is kept while its answer is read,
/// and the result is sent there.
pub proof fn law_tool_result_to_same_model(f: GeminiFlow, e: GeminiEvent)
    requires
        f.phase == GeminiPhase::AwaitTool || f.phase == GeminiPhase::AwaitFinal || (f.phase
            == GeminiPhase::AwaitModel && model_answered(e)),
    ensures
        gemini_step_spec(f, e).0.url == f@.url,
        gemini_step_spec(f, e).1 is SendToolResult ==> gemini_step_spec(f, e).1->SendToolResult_url == f@.url,
{
    match e {
        GeminiEvent::ModelReplied { data } => {
            if data is Some {
                if let Some(ps) = answer_parts_spec(data->0) {
                    lemma_scan_runs_calling_part(ps, 0, false);
                }
            }
        },
        _ => {},
    }
    if let Some(ps) = answer_parts_spec(f.answer) {
        lemma_scan_runs_calling_part(ps, f.part_index as int, true);
    }
}

/// A request always ends: each step either asks the next model, runs the
/// tool of a later part, sends a tool's result, or finishes; and a tool
/// only runs for a part that calls it.
pub proof fn law_gemini_progress(f: GeminiFlow, e: GeminiEvent)
    ensures
        ({
            let (n, a) = gemini_step_spec(f, e);
            &&& (f.phase == GeminiPhase::Finished ==> n.phase == GeminiPhase::Finished)
            &&& (f.phase == GeminiPhase::AwaitTool ==> n.phase == GeminiPhase::AwaitFinal || n.phase
                == GeminiPhase::Finished)
            &&& (f.phase == GeminiPhase::AwaitModel && n.phase == GeminiPhase::AwaitModel ==> n.model_index
                == f@.model_index + 1 && n.model_index < n.models.len())
            &&& (f.phase == GeminiPhase::AwaitFinal ==> n.phase == GeminiPhase::Finished || (n.phase
                == GeminiPhase::AwaitTool && n.part_index > f@.part_index))
            &&& (a matches GeminiActionView::RunTool { tool, part_index } ==> (answer_parts_spec(n.answer)
                matches Some(ps) && 0 <= part_index < ps.len() && Some(tool) == part_tool_spec(ps[part_index])))
        }),
{
    match f.phase {
        GeminiPhase::AwaitModel => {
            if let GeminiEvent::ModelReplied { data } = e {
                if data is Some && field_spec(data, "error"@) is None {
                    if let Some(ps) = answer_parts_spec(data->0) {
                        lemma_scan_runs_calling_part(ps, 0, false);
                    }
                }
            }
        },
        GeminiPhase::AwaitFinal => {
            if let Some(ps) = answer_parts_spec(f.answer) {
                lemma_scan_runs_calling_part(ps, f.part_index as int, true);
            }
        },
        _ => {},
    }
}

} // verus!
