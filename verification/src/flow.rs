//! The handling of one incoming message, as a state machine: from the
//! payload to the reply and, when the assistant asks for it, the hand-over
//! of the chat to the next attendant of the rotation.  Each step takes
//! what the previous action brought back (an event) and names the next
//! action; the caller performs the actions (reading the store, calling
//! uTalk and the language model) and reports their results.
use vstd::prelude::*;
use crate::catalog::FIRST_STAGE;
use crate::config::AppConfig;
use crate::conversation::{
    StageConfig, StageStep, StaticReply, audio_cache_paths, default_stage_audio, default_stage_audio_spec,
    detect_transfer, expected_answer_spec, full_audio_url, full_audio_url_spec, is_answerable,
    is_answerable_spec, is_blank_prompt, is_reset_command, msg_str_spec, direct_audio_url_spec,
    next_stage_spec, opt_view, plan_stage_step, read_message, retain_online, select_tag_ids,
    stage_prompt, stage_prompt_spec, static_reply_audio, static_stage_reply, transfer_spec,
    user_prompt, user_prompt_spec, attendant_tags_of, tag_items, QUOTE_TAG_ID,
};
use crate::json::JsonValue;
use crate::prompts::TEST_RESET_CONFIRMATION;
use crate::text::{default_hash, default_hash_of, lower_hex, seq_contains, str_eq, to_lowercase, trim_spec, unicode_lowercase};
use crate::utalk::{UtalkOperator, attendant_name, attendant_name_spec};
use crate::webhook::{
    chat_id_spec, contact_name_spec, is_tester, is_tester_spec, phone_spec, strings_view,
};

verus! {

/// Where the handling of a message stands: which result it waits for.
#[derive(Debug, Clone, Copy, PartialEq, Eq, Structural)]
pub enum Phase {
    /// The settings, read once the message is known to be handled.
    AwaitSettings,
    /// The recording of an audio message.
    AwaitAudio,
    /// The reset of a tester's chat.
    AwaitReset,
    /// The chat's stage and whether it has history.
    AwaitStage,
    /// The configuration of the stage the chat entered.
    AwaitStageConfig,
    /// The assistant's reply.
    AwaitReply,
    /// The hash of the reply, which names its voice recording.
    AwaitHash,
    /// The delivery of the reply.
    AwaitReplySent,
    /// The attendants online.
    AwaitOnline,
    /// The attendant the rotation picks.
    AwaitPick,
    /// The attendants of the organisation, for the picked one's name.
    AwaitOperators,
    /// The transfer of the chat in uTalk.
    AwaitTransfer,
    /// The record of the hand-over.
    AwaitRecord,
    /// The organisation's tags.
    AwaitTags,
    /// The last message or tagging.
    Closing,
    /// Nothing is left to do.
    Finished,
}

/// The handling of one message.
#[derive(Debug)]
pub struct Flow {
    pub phase: Phase,
    pub chat_id: String,
    pub msg_id: String,
    pub direct_audio_url: Option<String>,
    pub msg_type: String,
    pub content: String,
    pub contact_name: String,
    /// The sender's phone.
    pub phone: String,
    /// Whether the sender is one of the testers.
    pub tester: bool,
    /// Whether the client sent an audio.
    pub client_audio: bool,
    /// The prompt the message gives.
    pub prompt: String,
    /// The stage the chat was at when the message came.
    pub stage: String,
    /// The recording sent when the entered stage has none.
    pub default_audio: String,
    /// Whether the assistant asked for a human attendant.
    pub transfer: bool,
    /// The attendant the rotation picked.
    pub operator_id: String,
    /// The name under which the hand-over is recorded.
    pub attendant: String,
}

/// The result of the last action.
#[derive(Debug)]
pub enum FlowEvent {
    /// The settings were read (they are handed to every step).
    SettingsRead,
    /// Whether the recording could be fetched.
    AudioFetched { ok: bool },
    /// The chat's stage, and whether the chat has no history.
    StageLoaded { stage: String, first_contact: bool },
    /// The stored configuration of the entered stage.
    StageConfigLoaded { config: Option<StageConfig> },
    /// The assistant's reply (`None` when it failed).
    AssistantReplied { reply: Option<String> },
    /// The hash of the reply.
    ReplyHashed { hash: u64 },
    /// The attendants online (`None` when they could not be listed).
    OnlineMembers { ids: Option<Vec<String>> },
    /// The attendant the rotation picked (`None`: nobody to pick).
    OperatorPicked { id: Option<String> },
    /// The attendants of the organisation (`None` when they could not be
    /// listed).
    OperatorsFetched { ops: Option<Vec<UtalkOperator>> },
    /// The organisation's tags, as the API answers.
    TagsFetched { tags: JsonValue },
    /// An action that brings nothing back was performed.
    Done,
}

/// What the caller does next.
#[derive(Debug)]
pub enum FlowAction {
    /// Stop: the message is handled.
    Finish,
    /// Read the settings.
    ReadSettings,
    /// Fetch the recording of the message: from `direct_url` when there is
    /// one, else through the API.
    FetchAudio { direct_url: Option<String>, msg_id: String },
    /// Erase the chat's history and hand-overs and put it at `stage`.
    ResetChat { chat_id: String, stage: String },
    /// Read the chat's stage and whether it has history.
    LoadStage { chat_id: String },
    /// Put the chat at `stage` and read that stage's configuration.
    EnterStage { chat_id: String, stage: String },
    /// Send a text message.
    SendText { chat_id: String, text: String },
    /// Send a voice note.
    SendAudio { chat_id: String, url: String },
    /// Ask the assistant.
    AskAssistant { chat_id: String, prompt: String },
    /// Hash the reply.
    HashReply { text: String },
    /// Send the reply as a voice note kept at `cache_file`.
    SendVoiceReply { chat_id: String, url: String, cache_file: String },
    /// List the attendants online.
    FetchOnlineMembers,
    /// Pick the next attendant of the rotation among `candidates`.
    PickOperator { candidates: Vec<String> },
    /// List the attendants of the organisation.
    FetchOperators,
    /// Assign the chat to an attendant in uTalk.
    TransferChat { chat_id: String, member_id: String },
    /// Record the hand-over, which silences the assistant for the chat.
    RecordTransfer { chat_id: String, member_id: String, member_name: String },
    /// Read the organisation's tags.
    FetchTags,
    /// Put these tags on the chat.
    PutTags { chat_id: String, tag_ids: Vec<String> },
}

/// The handling of a message as a mathematical value.
#[verifier::ext_equal]
pub struct FlowView {
    pub phase: Phase,
    pub chat_id: Seq<char>,
    pub msg_id: Seq<char>,
    pub direct_audio_url: Option<Seq<char>>,
    pub msg_type: Seq<char>,
    pub content: Seq<char>,
    pub contact_name: Seq<char>,
    pub phone: Seq<char>,
    pub tester: bool,
    pub client_audio: bool,
    pub prompt: Seq<char>,
    pub stage: Seq<char>,
    pub default_audio: Seq<char>,
    pub transfer: bool,
    pub operator_id: Seq<char>,
    pub attendant: Seq<char>,
}

impl View for Flow {
    type V = FlowView;

    open spec fn view(&self) -> FlowView {
        FlowView {
            phase: self.phase,
            chat_id: self.chat_id@,
            msg_id: self.msg_id@,
            direct_audio_url: opt_view(self.direct_audio_url),
            msg_type: self.msg_type@,
            content: self.content@,
            contact_name: self.contact_name@,
            phone: self.phone@,
            tester: self.tester,
            client_audio: self.client_audio,
            prompt: self.prompt@,
            stage: self.stage@,
            default_audio: self.default_audio@,
            transfer: self.transfer,
            operator_id: self.operator_id@,
            attendant: self.attendant@,
        }
    }
}

/// An action as a mathematical value.
#[verifier::ext_equal]
pub enum ActionView {
    Finish,
    ReadSettings,
    FetchAudio { direct_url: Option<Seq<char>>, msg_id: Seq<char> },
    ResetChat { chat_id: Seq<char>, stage: Seq<char> },
    LoadStage { chat_id: Seq<char> },
    EnterStage { chat_id: Seq<char>, stage: Seq<char> },
    SendText { chat_id: Seq<char>, text: Seq<char> },
    SendAudio { chat_id: Seq<char>, url: Seq<char> },
    AskAssistant { chat_id: Seq<char>, prompt: Seq<char> },
    HashReply { text: Seq<char> },
    SendVoiceReply { chat_id: Seq<char>, url: Seq<char>, cache_file: Seq<char> },
    FetchOnlineMembers,
    PickOperator { candidates: Seq<Seq<char>> },
    FetchOperators,
    TransferChat { chat_id: Seq<char>, member_id: Seq<char> },
    RecordTransfer { chat_id: Seq<char>, member_id: Seq<char>, member_name: Seq<char> },
    FetchTags,
    PutTags { chat_id: Seq<char>, tag_ids: Seq<Seq<char>> },
}

impl View for FlowAction {
    type V = ActionView;

    open spec fn view(&self) -> ActionView {
        match self {
            FlowAction::Finish => ActionView::Finish,
            FlowAction::ReadSettings => ActionView::ReadSettings,
            FlowAction::FetchAudio { direct_url, msg_id } => ActionView::FetchAudio {
                direct_url: opt_view(*direct_url),
                msg_id: msg_id@,
            },
            FlowAction::ResetChat { chat_id, stage } => ActionView::ResetChat { chat_id: chat_id@, stage: stage@ },
            FlowAction::LoadStage { chat_id } => ActionView::LoadStage { chat_id: chat_id@ },
            FlowAction::EnterStage { chat_id, stage } => ActionView::EnterStage { chat_id: chat_id@, stage: stage@ },
            FlowAction::SendText { chat_id, text } => ActionView::SendText { chat_id: chat_id@, text: text@ },
            FlowAction::SendAudio { chat_id, url } => ActionView::SendAudio { chat_id: chat_id@, url: url@ },
            FlowAction::AskAssistant { chat_id, prompt } => ActionView::AskAssistant {
                chat_id: chat_id@,
                prompt: prompt@,
            },
            FlowAction::HashReply { text } => ActionView::HashReply { text: text@ },
            FlowAction::SendVoiceReply { chat_id, url, cache_file } => ActionView::SendVoiceReply {
                chat_id: chat_id@,
                url: url@,
                cache_file: cache_file@,
            },
            FlowAction::FetchOnlineMembers => ActionView::FetchOnlineMembers,
            FlowAction::PickOperator { candidates } => ActionView::PickOperator {
                candidates: strings_view(candidates@),
            },
            FlowAction::FetchOperators => ActionView::FetchOperators,
            FlowAction::TransferChat { chat_id, member_id } => ActionView::TransferChat {
                chat_id: chat_id@,
                member_id: member_id@,
            },
            FlowAction::RecordTransfer { chat_id, member_id, member_name } => ActionView::RecordTransfer {
                chat_id: chat_id@,
                member_id: member_id@,
                member_name: member_name@,
            },
            FlowAction::FetchTags => ActionView::FetchTags,
            FlowAction::PutTags { chat_id, tag_ids } => ActionView::PutTags {
                chat_id: chat_id@,
                tag_ids: strings_view(tag_ids@),
            },
        }
    }
}

// ---------------------------------------------------------------------------
// The transitions
// ---------------------------------------------------------------------------

pub open spec fn with_phase(v: FlowView, phase: Phase) -> FlowView {
    FlowView { phase, ..v }
}

pub open spec fn finished(v: FlowView) -> (FlowView, ActionView) {
    (with_phase(v, Phase::Finished), ActionView::Finish)
}

/// What the payload says of the message, before anything is decided.
pub open spec fn received_view(p: JsonValue) -> FlowView {
    FlowView {
        phase: Phase::Finished,
        chat_id: chat_id_spec(p),
        msg_id: msg_str_spec(p, "Id"@),
        direct_audio_url: direct_audio_url_spec(p),
        msg_type: msg_str_spec(p, "MessageType"@),
        content: msg_str_spec(p, "Content"@),
        contact_name: contact_name_spec(p),
        phone: phone_spec(p),
        tester: false,
        client_audio: msg_str_spec(p, "MessageType"@) == "Audio"@,
        prompt: Seq::empty(),
        stage: Seq::empty(),
        default_audio: Seq::empty(),
        transfer: false,
        operator_id: Seq::empty(),
        attendant: Seq::empty(),
    }
}

/// Once the audio (if any) is known: a blank prompt without audio is not
/// answered; a tester's reset command resets the chat; anything else goes
/// on to the chat's stage.
pub open spec fn after_audio_spec(v: FlowView, audio_ok: bool) -> (FlowView, ActionView) {
    let prompt = user_prompt_spec(v.msg_type, v.content, v.contact_name, audio_ok);
    let w = FlowView { prompt, ..v };
    if trim_spec(prompt).len() == 0 && !audio_ok {
        finished(w)
    } else if v.tester && seq_contains(unicode_lowercase(prompt), "tubarao_testes"@) {
        (with_phase(w, Phase::AwaitReset), ActionView::ResetChat { chat_id: v.chat_id, stage: FIRST_STAGE@ })
    } else {
        (with_phase(w, Phase::AwaitStage), ActionView::LoadStage { chat_id: v.chat_id })
    }
}

/// The first step: a message the assistant does not handle is dropped;
/// otherwise the settings are read.
pub open spec fn flow_start_spec(p: JsonValue) -> (FlowView, ActionView) {
    let v = received_view(p);
    if !is_answerable_spec(msg_str_spec(p, "Source"@), v.msg_type, v.chat_id) {
        finished(v)
    } else {
        (with_phase(v, Phase::AwaitSettings), ActionView::ReadSettings)
    }
}

/// Once the settings are read, whether the sender is a tester is known;
/// an audio message first has its recording fetched.
pub open spec fn settings_read_spec(v: FlowView, cfg: AppConfig) -> (FlowView, ActionView) {
    let w = FlowView { tester: is_tester_spec(v.phone, strings_view(cfg.test_allowed_phones@)), ..v };
    if v.client_audio {
        (with_phase(w, Phase::AwaitAudio), ActionView::FetchAudio { direct_url: v.direct_audio_url, msg_id: v.msg_id })
    } else {
        after_audio_spec(w, false)
    }
}

/// The assistant is asked with the prompt and the stage.
pub open spec fn ask_spec(v: FlowView) -> (FlowView, ActionView) {
    (
        with_phase(v, Phase::AwaitReply),
        ActionView::AskAssistant { chat_id: v.chat_id, prompt: stage_prompt_spec(v.prompt, v.stage) },
    )
}

/// After the stage is read: a chat without history is greeted from the
/// first stage; an expected answer moves the chat to the next stage;
/// anything else goes to the assistant.
pub open spec fn stage_loaded_spec(v: FlowView, stage: Seq<char>, first_contact: bool) -> (FlowView, ActionView) {
    let w = FlowView { stage, ..v };
    if first_contact {
        (
            FlowView { phase: Phase::AwaitStageConfig, default_audio: default_stage_audio_spec(FIRST_STAGE@), ..w },
            ActionView::EnterStage { chat_id: v.chat_id, stage: FIRST_STAGE@ },
        )
    } else if expected_answer_spec(stage, unicode_lowercase(v.prompt)) {
        (
            FlowView { phase: Phase::AwaitStageConfig, default_audio: default_stage_audio_spec(stage), ..w },
            ActionView::EnterStage { chat_id: v.chat_id, stage: next_stage_spec(stage) },
        )
    } else {
        ask_spec(w)
    }
}

/// After the entered stage's configuration is read: its recording (for an
/// audio) or its text is sent; with nothing to send, the assistant is
/// asked.
pub open spec fn stage_config_spec(v: FlowView, config: Option<StageConfig>) -> (FlowView, ActionView) {
    match config {
        None => ask_spec(v),
        Some(c) => {
            let audio = static_reply_audio(c, v.default_audio);
            if v.client_audio && audio.len() > 0 {
                (with_phase(v, Phase::Closing), ActionView::SendAudio { chat_id: v.chat_id, url: full_audio_url_spec(audio) })
            } else if c.text_message@.len() > 0 {
                (with_phase(v, Phase::Closing), ActionView::SendText { chat_id: v.chat_id, text: c.text_message@ })
            } else {
                ask_spec(v)
            }
        },
    }
}

/// The hand-over starts by listing the attendants online.
pub open spec fn start_handover(v: FlowView) -> (FlowView, ActionView) {
    (with_phase(v, Phase::AwaitOnline), ActionView::FetchOnlineMembers)
}

/// After the assistant's reply: without a reply nothing is sent; else the
/// hand-over keyword is taken out, the rest is sent (as a voice note,
/// named by its hash, to a client who spoke), and the hand-over follows
/// when the keyword was there.
pub open spec fn replied_spec(v: FlowView, reply: Option<Seq<char>>, cfg: AppConfig) -> (FlowView, ActionView) {
    match reply {
        None => finished(v),
        Some(r) => {
            let t = transfer_spec(cfg.rotation_enabled, cfg.rotation_trigger_keyword@, r);
            let w = FlowView { transfer: t.0, ..v };
            if t.1.len() > 0 {
                if v.client_audio {
                    (with_phase(w, Phase::AwaitHash), ActionView::HashReply { text: t.1 })
                } else {
                    (with_phase(w, Phase::AwaitReplySent), ActionView::SendText { chat_id: v.chat_id, text: t.1 })
                }
            } else if t.0 {
                start_handover(w)
            } else {
                finished(w)
            }
        },
    }
}

/// The public path of the voice recording of a reply with this hash.
pub open spec fn voice_path(hash: u64) -> Seq<char> {
    "/assets/audio_cache/"@ + lower_hex(hash as nat) + ".mp3"@
}

/// The file of the voice recording of a reply with this hash.
pub open spec fn voice_file(hash: u64) -> Seq<char> {
    "assets/audio_cache/"@ + lower_hex(hash as nat) + ".mp3"@
}

/// The attendants among whom the rotation picks: those of the rotation
/// that are online, or all of them when nobody's presence could be read.
pub open spec fn candidates_spec(rotation: Seq<Seq<char>>, online: Option<Seq<Seq<char>>>) -> Seq<Seq<char>> {
    match online {
        Some(o) => rotation.filter(|c: Seq<char>| o.contains(c)),
        None => rotation,
    }
}

pub open spec fn opt_strings_view(v: Option<Vec<String>>) -> Option<Seq<Seq<char>>> {
    match v {
        Some(x) => Some(strings_view(x@)),
        None => None,
    }
}

/// The name under which a hand-over without an attendant is recorded.
pub open spec fn sales_team() -> Seq<char> {
    "Equipe de Vendas"@
}

/// The member id under which every hand-over is recorded.
pub open spec fn transferred_member() -> Seq<char> {
    "transferred"@
}

/// One step of the handling of a message.
pub open spec fn flow_step_spec(f: Flow, e: FlowEvent, cfg: AppConfig) -> (FlowView, ActionView) {
    let v = f@;
    match f.phase {
        Phase::AwaitSettings => match e {
            FlowEvent::SettingsRead => settings_read_spec(v, cfg),
            _ => finished(v),
        },
        Phase::AwaitAudio => match e {
            FlowEvent::AudioFetched { ok } => after_audio_spec(v, ok),
            _ => finished(v),
        },
        Phase::AwaitReset => match e {
            FlowEvent::Done => (
                with_phase(v, Phase::Closing),
                ActionView::SendText { chat_id: v.chat_id, text: TEST_RESET_CONFIRMATION@ },
            ),
            _ => finished(v),
        },
        Phase::AwaitStage => match e {
            FlowEvent::StageLoaded { stage, first_contact } => stage_loaded_spec(v, stage@, first_contact),
            _ => finished(v),
        },
        Phase::AwaitStageConfig => match e {
            FlowEvent::StageConfigLoaded { config } => stage_config_spec(v, config),
            _ => finished(v),
        },
        Phase::AwaitReply => match e {
            FlowEvent::AssistantReplied { reply } => replied_spec(v, opt_view(reply), cfg),
            _ => finished(v),
        },
        Phase::AwaitHash => match e {
            FlowEvent::ReplyHashed { hash } => (
                with_phase(v, Phase::AwaitReplySent),
                ActionView::SendVoiceReply {
                    chat_id: v.chat_id,
                    url: full_audio_url_spec(voice_path(hash)),
                    cache_file: voice_file(hash),
                },
            ),
            _ => finished(v),
        },
        Phase::AwaitReplySent => match e {
            FlowEvent::Done => if v.transfer {
                start_handover(v)
            } else {
                finished(v)
            },
            _ => finished(v),
        },
        Phase::AwaitOnline => match e {
            FlowEvent::OnlineMembers { ids } => (
                with_phase(v, Phase::AwaitPick),
                ActionView::PickOperator {
                    candidates: candidates_spec(strings_view(cfg.rotation_operator_ids@), opt_strings_view(ids)),
                },
            ),
            _ => finished(v),
        },
        Phase::AwaitPick => match e {
            FlowEvent::OperatorPicked { id } => match id {
                Some(i) => (FlowView { phase: Phase::AwaitOperators, operator_id: i@, ..v }, ActionView::FetchOperators),
                None => (
                    FlowView { phase: Phase::AwaitRecord, attendant: sales_team(), ..v },
                    ActionView::RecordTransfer {
                        chat_id: v.chat_id,
                        member_id: transferred_member(),
                        member_name: sales_team(),
                    },
                ),
            },
            _ => finished(v),
        },
        Phase::AwaitOperators => match e {
            FlowEvent::OperatorsFetched { ops } => {
                let name = match ops {
                    Some(o) => attendant_name_spec(o@, v.operator_id),
                    None => v.operator_id,
                };
                (
                    FlowView { phase: Phase::AwaitTransfer, attendant: name, ..v },
                    ActionView::TransferChat { chat_id: v.chat_id, member_id: v.operator_id },
                )
            },
            _ => finished(v),
        },
        Phase::AwaitTransfer => match e {
            FlowEvent::Done => (
                with_phase(v, Phase::AwaitRecord),
                ActionView::RecordTransfer {
                    chat_id: v.chat_id,
                    member_id: transferred_member(),
                    member_name: v.attendant,
                },
            ),
            _ => finished(v),
        },
        Phase::AwaitRecord => match e {
            FlowEvent::Done => (with_phase(v, Phase::AwaitTags), ActionView::FetchTags),
            _ => finished(v),
        },
        Phase::AwaitTags => match e {
            FlowEvent::TagsFetched { tags } => (
                with_phase(v, Phase::Closing),
                ActionView::PutTags {
                    chat_id: v.chat_id,
                    tag_ids: seq![QUOTE_TAG_ID@] + attendant_tags_of(tag_items(tags), unicode_lowercase(v.attendant)),
                },
            ),
            _ => finished(v),
        },
        Phase::Closing => finished(v),
        Phase::Finished => finished(v),
    }
}

// ---------------------------------------------------------------------------
// The steps
// ---------------------------------------------------------------------------

fn finish(f: Flow) -> (r: (Flow, FlowAction))
    ensures
        r.0@ == finished(f@).0,
        r.1@ == finished(f@).1,
{
    let mut f = f;
    f.phase = Phase::Finished;
    (f, FlowAction::Finish)
}

fn copy_strings(v: &Vec<String>) -> (r: Vec<String>)
    ensures
        strings_view(r@) == strings_view(v@),
{
    let mut r: Vec<String> = Vec::new();
    let mut i: usize = 0;
    while i < v.len()
        invariant
            i <= v.len(),
            r@.len() == i,
            forall|j: int| 0 <= j < i ==> (#[trigger] r@[j])@ == v@[j]@,
        decreases v.len() - i,
    {
        r.push(v[i].clone());
        i = i + 1;
    }
    assert(strings_view(r@) =~= strings_view(v@));
    r
}

fn after_audio(f: Flow, audio_ok: bool) -> (r: (Flow, FlowAction))
    ensures
        r.0@ == after_audio_spec(f@, audio_ok).0,
        r.1@ == after_audio_spec(f@, audio_ok).1,
{
    let prompt = user_prompt(f.msg_type.as_str(), f.content.as_str(), f.contact_name.as_str(), audio_ok);
    let blank = is_blank_prompt(prompt.as_str(), audio_ok);
    let reset = is_reset_command(f.tester, prompt.as_str());
    let mut f = f;
    f.prompt = prompt;
    if blank {
        finish(f)
    } else if reset {
        let chat_id = f.chat_id.clone();
        f.phase = Phase::AwaitReset;
        (f, FlowAction::ResetChat { chat_id, stage: FIRST_STAGE.to_owned() })
    } else {
        let chat_id = f.chat_id.clone();
        f.phase = Phase::AwaitStage;
        (f, FlowAction::LoadStage { chat_id })
    }
}

/// Starts the handling of an incoming webhook payload.
pub fn flow_start(payload: &JsonValue) -> (r: (Flow, FlowAction))
    ensures
        r.0@ == flow_start_spec(*payload).0,
        r.1@ == flow_start_spec(*payload).1,
{
    let m = read_message(payload);
    let answerable = is_answerable(&m);
    let client_audio = str_eq(m.msg_type.as_str(), "Audio");
    let mut f = Flow {
        phase: Phase::Finished,
        chat_id: m.chat_id,
        msg_id: m.msg_id,
        direct_audio_url: m.direct_audio_url,
        msg_type: m.msg_type,
        content: m.content,
        contact_name: m.contact_name,
        phone: m.phone,
        tester: false,
        client_audio,
        prompt: String::new(),
        stage: String::new(),
        default_audio: String::new(),
        transfer: false,
        operator_id: String::new(),
        attendant: String::new(),
    };
    assert(f@ =~= received_view(*payload));
    if !answerable {
        (f, FlowAction::Finish)
    } else {
        f.phase = Phase::AwaitSettings;
        (f, FlowAction::ReadSettings)
    }
}

fn settings_read(f: Flow, cfg: &AppConfig) -> (r: (Flow, FlowAction))
    ensures
        r.0@ == settings_read_spec(f@, *cfg).0,
        r.1@ == settings_read_spec(f@, *cfg).1,
{
    let tester = is_tester(f.phone.as_str(), &cfg.test_allowed_phones);
    let mut f = f;
    f.tester = tester;
    if f.client_audio {
        let direct_url = f.direct_audio_url.clone();
        let msg_id = f.msg_id.clone();
        f.phase = Phase::AwaitAudio;
        (f, FlowAction::FetchAudio { direct_url, msg_id })
    } else {
        after_audio(f, false)
    }
}

fn ask(f: Flow) -> (r: (Flow, FlowAction))
    ensures
        r.0@ == ask_spec(f@).0,
        r.1@ == ask_spec(f@).1,
{
    let prompt = stage_prompt(f.prompt.as_str(), f.stage.as_str());
    let chat_id = f.chat_id.clone();
    let mut f = f;
    f.phase = Phase::AwaitReply;
    (f, FlowAction::AskAssistant { chat_id, prompt })
}

fn stage_loaded(f: Flow, stage: String, first_contact: bool) -> (r: (Flow, FlowAction))
    ensures
        r.0@ == stage_loaded_spec(f@, stage@, first_contact).0,
        r.1@ == stage_loaded_spec(f@, stage@, first_contact).1,
{
    let text_low = to_lowercase(f.prompt.as_str());
    let step = plan_stage_step(first_contact, stage.as_str(), text_low.as_str());
    let chat_id = f.chat_id.clone();
    let mut f = f;
    match step {
        StageStep::Greet => {
            f.default_audio = default_stage_audio(FIRST_STAGE);
            f.stage = stage;
            f.phase = Phase::AwaitStageConfig;
            (f, FlowAction::EnterStage { chat_id, stage: FIRST_STAGE.to_owned() })
        },
        StageStep::Advance { next } => {
            f.default_audio = default_stage_audio(stage.as_str());
            f.stage = stage;
            f.phase = Phase::AwaitStageConfig;
            (f, FlowAction::EnterStage { chat_id, stage: next })
        },
        StageStep::AskAssistant => {
            f.stage = stage;
            ask(f)
        },
    }
}

fn stage_config_loaded(f: Flow, config: Option<StageConfig>) -> (r: (Flow, FlowAction))
    ensures
        r.0@ == stage_config_spec(f@, config).0,
        r.1@ == stage_config_spec(f@, config).1,
{
    let reply = static_stage_reply(&config, f.default_audio.as_str(), f.client_audio);
    let chat_id = f.chat_id.clone();
    let mut f = f;
    match reply {
        Some(StaticReply::Audio { url }) => {
            f.phase = Phase::Closing;
            (f, FlowAction::SendAudio { chat_id, url })
        },
        Some(StaticReply::Text { text }) => {
            f.phase = Phase::Closing;
            (f, FlowAction::SendText { chat_id, text })
        },
        None => ask(f),
    }
}

fn start_handover_step(f: Flow) -> (r: (Flow, FlowAction))
    ensures
        r.0@ == start_handover(f@).0,
        r.1@ == start_handover(f@).1,
{
    let mut f = f;
    f.phase = Phase::AwaitOnline;
    (f, FlowAction::FetchOnlineMembers)
}

fn replied(f: Flow, reply: Option<String>, cfg: &AppConfig) -> (r: (Flow, FlowAction))
    ensures
        r.0@ == replied_spec(f@, opt_view(reply), *cfg).0,
        r.1@ == replied_spec(f@, opt_view(reply), *cfg).1,
{
    match reply {
        None => finish(f),
        Some(answer) => {
            let (transfer, text) = detect_transfer(
                cfg.rotation_enabled,
                cfg.rotation_trigger_keyword.as_str(),
                answer.as_str(),
            );
            let chat_id = f.chat_id.clone();
            let mut f = f;
            f.transfer = transfer;
            if !text.as_str().is_empty() {
                if f.client_audio {
                    f.phase = Phase::AwaitHash;
                    (f, FlowAction::HashReply { text })
                } else {
                    f.phase = Phase::AwaitReplySent;
                    (f, FlowAction::SendText { chat_id, text })
                }
            } else if transfer {
                start_handover_step(f)
            } else {
                finish(f)
            }
        },
    }
}

fn reply_hashed(f: Flow, hash: u64) -> (r: (Flow, FlowAction))
    ensures
        r.0@ == with_phase(f@, Phase::AwaitReplySent),
        r.1@ == (ActionView::SendVoiceReply {
            chat_id: f@.chat_id,
            url: full_audio_url_spec(voice_path(hash)),
            cache_file: voice_file(hash),
        }),
{
    let (path, file) = audio_cache_paths(hash);
    let url = full_audio_url(path.as_str());
    let chat_id = f.chat_id.clone();
    let mut f = f;
    f.phase = Phase::AwaitReplySent;
    (f, FlowAction::SendVoiceReply { chat_id, url, cache_file: file })
}

fn online_members(f: Flow, ids: Option<Vec<String>>, cfg: &AppConfig) -> (r: (Flow, FlowAction))
    ensures
        r.0@ == with_phase(f@, Phase::AwaitPick),
        r.1@ == (ActionView::PickOperator {
            candidates: candidates_spec(strings_view(cfg.rotation_operator_ids@), opt_strings_view(ids)),
        }),
{
    let candidates = match ids {
        Some(online) => retain_online(&cfg.rotation_operator_ids, &online),
        None => copy_strings(&cfg.rotation_operator_ids),
    };
    let mut f = f;
    f.phase = Phase::AwaitPick;
    (f, FlowAction::PickOperator { candidates })
}

/// Performs `HashReply`: the `DefaultHasher` hash of the reply, which
/// names its voice recording (the same text, the same recording).
pub fn hash_reply(text: &str) -> (e: FlowEvent)
    ensures
        e matches FlowEvent::ReplyHashed { hash } && hash == default_hash_of(text@),
{
    FlowEvent::ReplyHashed { hash: default_hash(text) }
}

/// One step of the handling of a message: from the result of the last
/// action to the next one.
pub fn flow_step(f: Flow, e: FlowEvent, cfg: &AppConfig) -> (r: (Flow, FlowAction))
    ensures
        r.0@ == flow_step_spec(f, e, *cfg).0,
        r.1@ == flow_step_spec(f, e, *cfg).1,
{
    let chat_id = f.chat_id.clone();
    match f.phase {
        Phase::AwaitSettings => match e {
            FlowEvent::SettingsRead => settings_read(f, cfg),
            _ => finish(f),
        },
        Phase::AwaitAudio => match e {
            FlowEvent::AudioFetched { ok } => after_audio(f, ok),
            _ => finish(f),
        },
        Phase::AwaitReset => match e {
            FlowEvent::Done => {
                let mut f = f;
                f.phase = Phase::Closing;
                (f, FlowAction::SendText { chat_id, text: TEST_RESET_CONFIRMATION.to_owned() })
            },
            _ => finish(f),
        },
        Phase::AwaitStage => match e {
            FlowEvent::StageLoaded { stage, first_contact } => stage_loaded(f, stage, first_contact),
            _ => finish(f),
        },
        Phase::AwaitStageConfig => match e {
            FlowEvent::StageConfigLoaded { config } => stage_config_loaded(f, config),
            _ => finish(f),
        },
        Phase::AwaitReply => match e {
            FlowEvent::AssistantReplied { reply } => replied(f, reply, cfg),
            _ => finish(f),
        },
        Phase::AwaitHash => match e {
            FlowEvent::ReplyHashed { hash } => reply_hashed(f, hash),
            _ => finish(f),
        },
        Phase::AwaitReplySent => match e {
            FlowEvent::Done => if f.transfer {
                start_handover_step(f)
            } else {
                finish(f)
            },
            _ => finish(f),
        },
        Phase::AwaitOnline => match e {
            FlowEvent::OnlineMembers { ids } => online_members(f, ids, cfg),
            _ => finish(f),
        },
        Phase::AwaitPick => match e {
            FlowEvent::OperatorPicked { id } => {
                let mut f = f;
                match id {
                    Some(i) => {
                        f.operator_id = i;
                        f.phase = Phase::AwaitOperators;
                        (f, FlowAction::FetchOperators)
                    },
                    None => {
                        f.attendant = "Equipe de Vendas".to_owned();
                        f.phase = Phase::AwaitRecord;
                        (
                            f,
                            FlowAction::RecordTransfer {
                                chat_id,
                                member_id: "transferred".to_owned(),
                                member_name: "Equipe de Vendas".to_owned(),
                            },
                        )
                    },
                }
            },
            _ => finish(f),
        },
        Phase::AwaitOperators => match e {
            FlowEvent::OperatorsFetched { ops } => {
                let name = match ops {
                    Some(o) => attendant_name(&o, f.operator_id.as_str()),
                    None => f.operator_id.clone(),
                };
                let member_id = f.operator_id.clone();
                let mut f = f;
                f.attendant = name;
                f.phase = Phase::AwaitTransfer;
                (f, FlowAction::TransferChat { chat_id, member_id })
            },
            _ => finish(f),
        },
        Phase::AwaitTransfer => match e {
            FlowEvent::Done => {
                let member_name = f.attendant.clone();
                let mut f = f;
                f.phase = Phase::AwaitRecord;
                (f, FlowAction::RecordTransfer { chat_id, member_id: "transferred".to_owned(), member_name })
            },
            _ => finish(f),
        },
        Phase::AwaitRecord => match e {
            FlowEvent::Done => {
                let mut f = f;
                f.phase = Phase::AwaitTags;
                (f, FlowAction::FetchTags)
            },
            _ => finish(f),
        },
        Phase::AwaitTags => match e {
            FlowEvent::TagsFetched { tags } => {
                let tag_ids = select_tag_ids(&tags, f.attendant.as_str());
                let mut f = f;
                f.phase = Phase::Closing;
                (f, FlowAction::PutTags { chat_id, tag_ids })
            },
            _ => finish(f),
        },
        Phase::Closing => finish(f),
        Phase::Finished => finish(f),
    }
}

// ---------------------------------------------------------------------------
// Laws
// ---------------------------------------------------------------------------

/// How far a phase is from the end of the handling.
pub open spec fn phase_rank(p: Phase) -> int {
    match p {
        Phase::AwaitSettings => 15,
        Phase::AwaitAudio => 14,
        Phase::AwaitReset => 13,
        Phase::AwaitStage => 12,
        Phase::AwaitStageConfig => 11,
        Phase::AwaitReply => 10,
        Phase::AwaitHash => 9,
        Phase::AwaitReplySent => 8,
        Phase::AwaitOnline => 7,
        Phase::AwaitPick => 6,
        Phase::AwaitOperators => 5,
        Phase::AwaitTransfer => 4,
        Phase::AwaitRecord => 3,
        Phase::AwaitTags => 2,
        Phase::Closing => 1,
        Phase::Finished => 0,
    }
}

/// The handling of a message always ends: every step of an unfinished
/// handling moves it strictly closer to the end (so no message takes more
/// than sixteen steps), and a finished handling only says to stop.
pub proof fn law_flow_progress(f: Flow, e: FlowEvent, cfg: AppConfig)
    ensures
        f.phase != Phase::Finished ==> phase_rank(flow_step_spec(f, e, cfg).0.phase) < phase_rank(f.phase),
        f.phase == Phase::Finished ==> flow_step_spec(f, e, cfg).0.phase == Phase::Finished
            && flow_step_spec(f, e, cfg).1 == ActionView::Finish,
        0 <= phase_rank(flow_step_spec(f, e, cfg).0.phase),
{
}

/// A step keeps what the handling is about: the chat, the message and its
/// sender (whether the sender is a tester is settled once, when the
/// settings are read).
pub proof fn law_flow_keeps_message(f: Flow, e: FlowEvent, cfg: AppConfig)
    ensures
        ({
            let n = flow_step_spec(f, e, cfg).0;
            &&& n.chat_id == f@.chat_id
            &&& n.msg_id == f@.msg_id
            &&& n.msg_type == f@.msg_type
            &&& n.content == f@.content
            &&& n.contact_name == f@.contact_name
            &&& n.phone == f@.phone
            &&& n.client_audio == f@.client_audio
            &&& (f.phase != Phase::AwaitSettings ==> n.tester == f@.tester)
        }),
{
}

/// The chat an action concerns, when it concerns one.
pub open spec fn action_chat(a: ActionView) -> Option<Seq<char>> {
    match a {
        ActionView::ResetChat { chat_id, .. } => Some(chat_id),
        ActionView::LoadStage { chat_id } => Some(chat_id),
        ActionView::EnterStage { chat_id, .. } => Some(chat_id),
        ActionView::SendText { chat_id, .. } => Some(chat_id),
        ActionView::SendAudio { chat_id, .. } => Some(chat_id),
        ActionView::AskAssistant { chat_id, .. } => Some(chat_id),
        ActionView::SendVoiceReply { chat_id, .. } => Some(chat_id),
        ActionView::TransferChat { chat_id, .. } => Some(chat_id),
        ActionView::RecordTransfer { chat_id, .. } => Some(chat_id),
        ActionView::PutTags { chat_id, .. } => Some(chat_id),
        _ => None,
    }
}

/// Every action of the handling concerns the chat the message came from.
pub proof fn law_flow_acts_on_its_chat(f: Flow, e: FlowEvent, cfg: AppConfig, p: JsonValue)
    ensures
        action_chat(flow_step_spec(f, e, cfg).1) matches Some(c) ==> c == f@.chat_id,
        action_chat(flow_start_spec(p).1) matches Some(c) ==> c == chat_id_spec(p),
{
}

/// Whether an action sends the client a voice note.
pub open spec fn is_voice_action(a: ActionView) -> bool {
    a is SendAudio || a is HashReply || a is SendVoiceReply
}

/// What holds of every handling reached from a payload: the voice of a
/// reply is only prepared for a client who sent an audio.
pub open spec fn flow_inv(v: FlowView) -> bool {
    v.phase == Phase::AwaitHash ==> v.client_audio
}

/// The start establishes the invariant and every step keeps it.
pub proof fn law_flow_invariant(p: JsonValue, f: Flow, e: FlowEvent, cfg: AppConfig)
    ensures
        flow_inv(flow_start_spec(p).0),
        flow_inv(f@) ==> flow_inv(flow_step_spec(f, e, cfg).0),
{
}

/// A client who did not send an audio is never answered with a voice
/// note: the medium of the reply follows the client's.
pub proof fn law_text_client_gets_text(f: Flow, e: FlowEvent, cfg: AppConfig, p: JsonValue)
    requires
        flow_inv(f@),
    ensures
        !f.client_audio ==> !is_voice_action(flow_step_spec(f, e, cfg).1),
        !flow_start_spec(p).0.client_audio ==> !is_voice_action(flow_start_spec(p).1),
{
}

/// A tester's reset command (`tubarao_testes`) puts the chat back at the
/// first stage and is answered with the reset confirmation; the assistant
/// is not asked.
pub proof fn law_reset_command(v: FlowView, audio_ok: bool, f: Flow, cfg: AppConfig)
    requires
        v.tester,
        seq_contains(unicode_lowercase(user_prompt_spec(v.msg_type, v.content, v.contact_name, audio_ok)), "tubarao_testes"@),
        trim_spec(user_prompt_spec(v.msg_type, v.content, v.contact_name, audio_ok)).len() > 0 || audio_ok,
        f.phase == Phase::AwaitReset,
    ensures
        after_audio_spec(v, audio_ok).0.phase == Phase::AwaitReset,
        after_audio_spec(v, audio_ok).1 == (ActionView::ResetChat { chat_id: v.chat_id, stage: FIRST_STAGE@ }),
        flow_step_spec(f, FlowEvent::Done, cfg).1 == (ActionView::SendText {
            chat_id: f@.chat_id,
            text: TEST_RESET_CONFIRMATION@,
        }),
        flow_step_spec(f, FlowEvent::Done, cfg).0.phase == Phase::Closing,
{
}

/// Whether an event is the result that a phase waits for.
pub open spec fn event_fits(p: Phase, e: FlowEvent) -> bool {
    match p {
        Phase::AwaitSettings => e is SettingsRead,
        Phase::AwaitAudio => e is AudioFetched,
        Phase::AwaitStage => e is StageLoaded,
        Phase::AwaitStageConfig => e is StageConfigLoaded,
        Phase::AwaitReply => e is AssistantReplied,
        Phase::AwaitHash => e is ReplyHashed,
        Phase::AwaitOnline => e is OnlineMembers,
        Phase::AwaitPick => e is OperatorPicked,
        Phase::AwaitOperators => e is OperatorsFetched,
        Phase::AwaitTags => e is TagsFetched,
        _ => e is Done,
    }
}

pub open spec fn in_handover(p: Phase) -> bool {
    p == Phase::AwaitOnline || p == Phase::AwaitPick || p == Phase::AwaitOperators || p == Phase::AwaitTransfer
}

/// Once the hand-over has begun, the handling does not stop before the
/// hand-over is recorded (which silences the assistant for the chat): each
/// step stays in the hand-over or records it, under the attendant's name.
pub proof fn law_handover_is_recorded(f: Flow, e: FlowEvent, cfg: AppConfig)
    requires
        in_handover(f.phase),
        event_fits(f.phase, e),
    ensures
        in_handover(flow_step_spec(f, e, cfg).0.phase) || (flow_step_spec(f, e, cfg).0.phase == Phase::AwaitRecord
            && flow_step_spec(f, e, cfg).1 == (ActionView::RecordTransfer {
            chat_id: f@.chat_id,
            member_id: transferred_member(),
            member_name: flow_step_spec(f, e, cfg).0.attendant,
        })),
{
}

/// The chat is handed over only to attendants of the rotation, and, when
/// presence could be read, only to those online.
pub proof fn law_handover_candidates(rotation: Seq<Seq<char>>, online: Option<Seq<Seq<char>>>, c: Seq<char>)
    requires
        candidates_spec(rotation, online).contains(c),
    ensures
        rotation.contains(c),
        online matches Some(o) ==> o.contains(c),
{
    match online {
        Some(o) => {
            let pred = |x: Seq<char>| o.contains(x);
            rotation.lemma_filter_contains_rev(pred, c);
            let i = choose|i: int| 0 <= i < rotation.filter(pred).len() && rotation.filter(pred)[i] == c;
            rotation.lemma_filter_pred(pred, i);
        },
        None => {},
    }
}


/// The hand-over follows only a reply that asked for it.  A reply without
/// the rotation keyword (or with the rotation off, or no keyword set)
/// marks no hand-over and never lists the attendants; once a reply is
/// sent, the handling ends unless the reply asked for the hand-over, in
/// which case the hand-over starts; hashing the reply keeps the mark.
pub proof fn law_handover_only_when_asked(f: Flow, r: String, cfg: AppConfig, hash: u64)
    ensures
        f.phase == Phase::AwaitReply && !(cfg.rotation_enabled && cfg.rotation_trigger_keyword@.len() > 0
            && seq_contains(r@, cfg.rotation_trigger_keyword@)) ==> ({
            let (n, a) = flow_step_spec(f, FlowEvent::AssistantReplied { reply: Some(r) }, cfg);
            &&& !n.transfer
            &&& n.phase != Phase::AwaitOnline
            &&& a != ActionView::FetchOnlineMembers
        }),
        f.phase == Phase::AwaitReply && cfg.rotation_enabled && cfg.rotation_trigger_keyword@.len() > 0
            && seq_contains(r@, cfg.rotation_trigger_keyword@) ==> flow_step_spec(
            f,
            FlowEvent::AssistantReplied { reply: Some(r) },
            cfg,
        ).0.transfer,
        f.phase == Phase::AwaitReplySent && !f.transfer ==> flow_step_spec(f, FlowEvent::Done, cfg) == (
            with_phase(f@, Phase::Finished),
            ActionView::Finish,
        ),
        f.phase == Phase::AwaitReplySent && f.transfer ==> flow_step_spec(f, FlowEvent::Done, cfg) == (
            with_phase(f@, Phase::AwaitOnline),
            ActionView::FetchOnlineMembers,
        ),
        f.phase == Phase::AwaitHash ==> flow_step_spec(f, FlowEvent::ReplyHashed { hash }, cfg).0.transfer
            == f.transfer && flow_step_spec(f, FlowEvent::ReplyHashed { hash }, cfg).0.phase
            == Phase::AwaitReplySent,
{
}

} // verus!
