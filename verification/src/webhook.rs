//! Reading the uTalk webhook payload and deciding whether the assistant
//! answers it: which message and chat it concerns, who sent it, whether a
//! human already attends the chat, whether its channel is served and
//! whether the sender is one of the testers.
use vstd::prelude::*;
use crate::json::{
    JsonValue, as_array, as_array_spec, as_bool, as_bool_spec, as_str, as_str_spec, deref_opt,
    field, field_spec, first_str, is_object, is_object_spec, is_string, is_string_spec, str_or,
};
use crate::text::{digits_only, digits_only_spec, ends_with, seq_ends_with, str_eq};

verus! {

pub open spec fn strings_view(v: Seq<String>) -> Seq<Seq<char>> {
    v.map_values(|s: String| s@)
}

// ---------------------------------------------------------------------------
// Where things are in the payload
// ---------------------------------------------------------------------------

pub open spec fn payload_node(p: JsonValue) -> Option<JsonValue> {
    field_spec(Some(p), "Payload"@)
}

/// `Payload.Content`.
pub open spec fn content_node(p: JsonValue) -> Option<JsonValue> {
    field_spec(payload_node(p), "Content"@)
}

/// `Payload.Type`, empty when absent.
pub open spec fn payload_type_spec(p: JsonValue) -> Seq<char> {
    str_or(field_spec(payload_node(p), "Type"@), Seq::empty())
}

/// The message: the content itself for message events (or when the
/// content has a `MessageType`), else the content's `LastMessage`.
pub open spec fn message_node(p: JsonValue) -> Option<JsonValue> {
    let c = content_node(p);
    if payload_type_spec(p) == "Message"@ || is_string_spec(field_spec(c, "MessageType"@)) {
        c
    } else {
        field_spec(c, "LastMessage"@)
    }
}

/// The chat: the content itself for chat events, else the content's `Chat`.
pub open spec fn chat_node(p: JsonValue) -> Option<JsonValue> {
    let c = content_node(p);
    if payload_type_spec(p) == "Chat"@ {
        c
    } else {
        field_spec(c, "Chat"@)
    }
}

pub open spec fn or_default(s: Option<Seq<char>>, default: Seq<char>) -> Seq<char> {
    match s {
        Some(x) => x,
        None => default,
    }
}

pub open spec fn channel_name_spec(p: JsonValue) -> Seq<char> {
    or_default(
        first_str(
            field_spec(field_spec(chat_node(p), "Channel"@), "Name"@),
            field_spec(field_spec(content_node(p), "Channel"@), "Name"@),
        ),
        "Canal Geral"@,
    )
}

pub open spec fn channel_id_spec(p: JsonValue) -> Seq<char> {
    or_default(
        first_str(
            field_spec(field_spec(chat_node(p), "Channel"@), "Id"@),
            field_spec(field_spec(content_node(p), "Channel"@), "Id"@),
        ),
        "N/A"@,
    )
}

pub open spec fn contact_name_spec(p: JsonValue) -> Seq<char> {
    or_default(
        first_str(
            field_spec(field_spec(content_node(p), "Contact"@), "Name"@),
            field_spec(
                field_spec(field_spec(message_node(p), "Chat"@), "Contact"@),
                "Name"@,
            ),
        ),
        "Cliente"@,
    )
}

pub open spec fn phone_spec(p: JsonValue) -> Seq<char> {
    or_default(
        first_str(
            field_spec(field_spec(content_node(p), "Contact"@), "PhoneNumber"@),
            field_spec(
                field_spec(field_spec(message_node(p), "Chat"@), "Contact"@),
                "PhoneNumber"@,
            ),
        ),
        "N/A"@,
    )
}

pub open spec fn text_spec(p: JsonValue) -> Seq<char> {
    str_or(field_spec(message_node(p), "Content"@), "[Mídia / Áudio / Sistema]"@)
}

/// The chat the event concerns: the content's `Id` for chat events, else
/// the message's chat, else the content's chat; empty when absent.
pub open spec fn chat_id_spec(p: JsonValue) -> Seq<char> {
    if payload_type_spec(p) == "Chat"@ {
        str_or(field_spec(content_node(p), "Id"@), Seq::empty())
    } else {
        or_default(
            first_str(
                field_spec(field_spec(message_node(p), "Chat"@), "Id"@),
                field_spec(field_spec(content_node(p), "Chat"@), "Id"@),
            ),
            Seq::empty(),
        )
    }
}

pub open spec fn nonempty_str(v: Option<JsonValue>) -> bool {
    match as_str_spec(v) {
        Some(s) => s.len() > 0,
        None => false,
    }
}

/// A human attendant is assigned to the chat in uTalk.
pub open spec fn has_human_member_spec(p: JsonValue) -> bool {
    let chat = chat_node(p);
    let c = content_node(p);
    ||| is_object_spec(field_spec(chat, "OrganizationMember"@))
    ||| is_object_spec(field_spec(chat, "organizationMember"@))
    ||| is_object_spec(field_spec(chat, "Member"@))
    ||| is_object_spec(field_spec(c, "OrganizationMember"@))
    ||| is_object_spec(field_spec(c, "organizationMember"@))
    ||| nonempty_str(field_spec(chat, "MemberId"@))
    ||| nonempty_str(field_spec(chat, "memberId"@))
}

/// The strings of an array, in order; other elements are skipped.
pub open spec fn strings_in(a: Seq<JsonValue>) -> Seq<Seq<char>>
    decreases a.len(),
{
    if a.len() == 0 {
        Seq::empty()
    } else {
        strings_in(a.drop_last()) + match a.last() {
            JsonValue::Str(s) => seq![s@],
            _ => Seq::empty(),
        }
    }
}

/// The name of a tag: its `name` field when it has one, else `Name`.
pub open spec fn tag_name_spec(t: JsonValue) -> Option<Seq<char>> {
    let n = field_spec(Some(t), "name"@);
    if n is Some {
        as_str_spec(n)
    } else {
        as_str_spec(field_spec(Some(t), "Name"@))
    }
}

pub open spec fn tag_names_of(a: Seq<JsonValue>) -> Seq<Seq<char>>
    decreases a.len(),
{
    if a.len() == 0 {
        Seq::empty()
    } else {
        tag_names_of(a.drop_last()) + match tag_name_spec(a.last()) {
            Some(s) => seq![s],
            None => Seq::empty(),
        }
    }
}

/// The tags of the chat, else of the contact, else of the content.
pub open spec fn tags_array_spec(p: JsonValue) -> Option<Seq<JsonValue>> {
    let a = as_array_spec(field_spec(chat_node(p), "Tags"@));
    let b = as_array_spec(field_spec(field_spec(content_node(p), "Contact"@), "Tags"@));
    let c = as_array_spec(field_spec(content_node(p), "Tags"@));
    if a is Some {
        a
    } else if b is Some {
        b
    } else {
        c
    }
}

pub open spec fn tag_names_spec(p: JsonValue) -> Seq<Seq<char>> {
    match tags_array_spec(p) {
        Some(a) => tag_names_of(a),
        None => Seq::empty(),
    }
}

// ---------------------------------------------------------------------------
// Reading the payload
// ---------------------------------------------------------------------------

/// What the webhook reports about an event.
#[derive(Debug)]
pub struct WebhookSummary {
    pub payload_type: String,
    pub channel_name: String,
    pub channel_id: String,
    pub contact_name: String,
    pub phone: String,
    pub text: String,
    pub tag_names: Vec<String>,
    pub has_human_member: bool,
    pub chat_id: String,
}

fn string_or(s: Option<String>, default: &str) -> (r: String)
    ensures
        r@ == or_default(
            match s {
                Some(x) => Some(x@),
                None => None,
            },
            default@,
        ),
{
    match s {
        Some(x) => x,
        None => default.to_owned(),
    }
}

fn first_string(a: Option<&JsonValue>, b: Option<&JsonValue>) -> (r: Option<String>)
    ensures
        match r {
            Some(x) => first_str(deref_opt(a), deref_opt(b)) == Some(x@),
            None => first_str(deref_opt(a), deref_opt(b)) is None,
        },
{
    match as_str(a) {
        Some(s) => Some(s),
        None => as_str(b),
    }
}

fn content_of(p: &JsonValue) -> (r: Option<&JsonValue>)
    ensures
        deref_opt(r) == content_node(*p),
{
    field(field(Some(p), "Payload"), "Content")
}

fn payload_type_of(p: &JsonValue) -> (r: String)
    ensures
        r@ == payload_type_spec(*p),
{
    proof {
        reveal_strlit("");
    }
    match as_str(field(field(Some(p), "Payload"), "Type")) {
        Some(s) => s,
        None => String::new(),
    }
}

fn message_of<'a>(p: &'a JsonValue, payload_type: &str) -> (r: Option<&'a JsonValue>)
    requires
        payload_type@ == payload_type_spec(*p),
    ensures
        deref_opt(r) == message_node(*p),
{
    let c = content_of(p);
    if str_eq(payload_type, "Message") || is_string(field(c, "MessageType")) {
        c
    } else {
        field(c, "LastMessage")
    }
}

fn chat_of<'a>(p: &'a JsonValue, payload_type: &str) -> (r: Option<&'a JsonValue>)
    requires
        payload_type@ == payload_type_spec(*p),
    ensures
        deref_opt(r) == chat_node(*p),
{
    let c = content_of(p);
    if str_eq(payload_type, "Chat") {
        c
    } else {
        field(c, "Chat")
    }
}

fn nonempty_string_at(v: Option<&JsonValue>) -> (b: bool)
    ensures
        b == nonempty_str(deref_opt(v)),
{
    match as_str(v) {
        Some(s) => !s.as_str().is_empty(),
        None => false,
    }
}

/// The chat an event concerns (empty when the payload names none).
pub fn chat_id_of(p: &JsonValue) -> (r: String)
    ensures
        r@ == chat_id_spec(*p),
{
    proof {
        reveal_strlit("");
    }
    let ty = payload_type_of(p);
    let c = content_of(p);
    if str_eq(ty.as_str(), "Chat") {
        match as_str(field(c, "Id")) {
            Some(s) => s,
            None => String::new(),
        }
    } else {
        let m = message_of(p, ty.as_str());
        string_or(first_string(field(field(m, "Chat"), "Id"), field(field(c, "Chat"), "Id")), "")
    }
}

/// The sender's phone number ("N/A" when the payload has none).
pub fn phone_of(p: &JsonValue) -> (r: String)
    ensures
        r@ == phone_spec(*p),
{
    let ty = payload_type_of(p);
    let c = content_of(p);
    let m = message_of(p, ty.as_str());
    string_or(
        first_string(
            field(field(c, "Contact"), "PhoneNumber"),
            field(field(field(m, "Chat"), "Contact"), "PhoneNumber"),
        ),
        "N/A",
    )
}

/// The sender's name ("Cliente" when the payload has none).
pub fn contact_name_of(p: &JsonValue) -> (r: String)
    ensures
        r@ == contact_name_spec(*p),
{
    let ty = payload_type_of(p);
    let c = content_of(p);
    let m = message_of(p, ty.as_str());
    string_or(
        first_string(
            field(field(c, "Contact"), "Name"),
            field(field(field(m, "Chat"), "Contact"), "Name"),
        ),
        "Cliente",
    )
}

/// The strings of an array, in order.
pub fn strings_of(a: &Vec<JsonValue>) -> (r: Vec<String>)
    ensures
        strings_view(r@) == strings_in(a@),
{
    let mut r: Vec<String> = Vec::new();
    let mut i: usize = 0;
    assert(strings_view(r@) =~= strings_in(a@.take(0)));
    while i < a.len()
        invariant
            i <= a.len(),
            strings_view(r@) == strings_in(a@.take(i as int)),
        decreases a.len() - i,
    {
        assert(a@.take(i + 1).drop_last() =~= a@.take(i as int));
        assert(a@.take(i + 1).last() == a@[i as int]);
        match &a[i] {
            JsonValue::Str(s) => {
                r.push(s.clone());
                assert(strings_view(r@) =~= strings_in(a@.take(i as int)) + seq![s@]);
            },
            _ => {
                assert(strings_in(a@.take(i + 1)) =~= strings_in(a@.take(i as int)));
            },
        }
        i = i + 1;
    }
    assert(a@.take(a.len() as int) =~= a@);
    r
}

fn tag_name_of(t: &JsonValue) -> (r: Option<String>)
    ensures
        match r {
            Some(x) => tag_name_spec(*t) == Some(x@),
            None => tag_name_spec(*t) is None,
        },
{
    let n = field(Some(t), "name");
    if n.is_some() {
        as_str(n)
    } else {
        as_str(field(Some(t), "Name"))
    }
}

fn tag_names_in(a: &Vec<JsonValue>) -> (r: Vec<String>)
    ensures
        strings_view(r@) == tag_names_of(a@),
{
    let mut r: Vec<String> = Vec::new();
    let mut i: usize = 0;
    assert(strings_view(r@) =~= tag_names_of(a@.take(0)));
    while i < a.len()
        invariant
            i <= a.len(),
            strings_view(r@) == tag_names_of(a@.take(i as int)),
        decreases a.len() - i,
    {
        assert(a@.take(i + 1).drop_last() =~= a@.take(i as int));
        assert(a@.take(i + 1).last() == a@[i as int]);
        match tag_name_of(&a[i]) {
            Some(s) => {
                let ghost sv = s@;
                r.push(s);
                assert(strings_view(r@) =~= tag_names_of(a@.take(i as int)) + seq![sv]);
            },
            None => {
                assert(tag_names_of(a@.take(i + 1)) =~= tag_names_of(a@.take(i as int)));
            },
        }
        i = i + 1;
    }
    assert(a@.take(a.len() as int) =~= a@);
    r
}

/// Reads an event: its type, channel, sender, text, tags, whether a human
/// attendant is assigned and the chat it concerns.
pub fn summarize_webhook(p: &JsonValue) -> (s: WebhookSummary)
    ensures
        s.payload_type@ == payload_type_spec(*p),
        s.channel_name@ == channel_name_spec(*p),
        s.channel_id@ == channel_id_spec(*p),
        s.contact_name@ == contact_name_spec(*p),
        s.phone@ == phone_spec(*p),
        s.text@ == text_spec(*p),
        strings_view(s.tag_names@) == tag_names_spec(*p),
        s.has_human_member == has_human_member_spec(*p),
        s.chat_id@ == chat_id_spec(*p),
{
    let ty = payload_type_of(p);
    let c = content_of(p);
    let m = message_of(p, ty.as_str());
    let chat = chat_of(p, ty.as_str());
    let channel_name = string_or(
        first_string(field(field(chat, "Channel"), "Name"), field(field(c, "Channel"), "Name")),
        "Canal Geral",
    );
    let channel_id = string_or(
        first_string(field(field(chat, "Channel"), "Id"), field(field(c, "Channel"), "Id")),
        "N/A",
    );
    let text = match as_str(field(m, "Content")) {
        Some(t) => t,
        None => "[Mídia / Áudio / Sistema]".to_owned(),
    };
    let tags_a = as_array(field(chat, "Tags"));
    let tags_b = as_array(field(field(c, "Contact"), "Tags"));
    let tags_c = as_array(field(c, "Tags"));
    let tags = if tags_a.is_some() {
        tags_a
    } else if tags_b.is_some() {
        tags_b
    } else {
        tags_c
    };
    let tag_names = match tags {
        Some(a) => tag_names_in(a),
        None => Vec::new(),
    };
    let has_human_member = is_object(field(chat, "OrganizationMember"))
        || is_object(field(chat, "organizationMember"))
        || is_object(field(chat, "Member"))
        || is_object(field(c, "OrganizationMember"))
        || is_object(field(c, "organizationMember"))
        || nonempty_string_at(field(chat, "MemberId"))
        || nonempty_string_at(field(chat, "memberId"));
    WebhookSummary {
        payload_type: ty,
        channel_name,
        channel_id,
        contact_name: contact_name_of(p),
        phone: phone_of(p),
        text,
        tag_names,
        has_human_member,
        chat_id: chat_id_of(p),
    }
}

// ---------------------------------------------------------------------------
// Served channels and testers
// ---------------------------------------------------------------------------

/// The channels a synchronised webhook serves: none when it is paused,
/// else the strings of `for_channels` (or `forChannels`).
pub open spec fn webhook_channels_spec(item: JsonValue) -> Seq<Seq<char>> {
    if as_bool_spec(field_spec(Some(item), "paused"@)) == Some(true) {
        Seq::empty()
    } else {
        let a = as_array_spec(field_spec(Some(item), "for_channels"@));
        let b = as_array_spec(field_spec(Some(item), "forChannels"@));
        match (if a is Some { a } else { b }) {
            Some(chs) => strings_in(chs),
            None => Seq::empty(),
        }
    }
}

pub open spec fn allowed_channels_of(items: Seq<JsonValue>) -> Seq<Seq<char>>
    decreases items.len(),
{
    if items.len() == 0 {
        Seq::empty()
    } else {
        allowed_channels_of(items.drop_last()) + webhook_channels_spec(items.last())
    }
}

/// The channels served by the synchronised webhooks (an array of them;
/// anything else serves none).
pub open spec fn allowed_channels_spec(synced: JsonValue) -> Seq<Seq<char>> {
    match synced {
        JsonValue::Array(items) => allowed_channels_of(items@),
        _ => Seq::empty(),
    }
}

/// A channel is served when no webhook restricts the channels, or one
/// lists it.
pub open spec fn channel_allowed_spec(allowed: Seq<Seq<char>>, channel_id: Seq<char>) -> bool {
    allowed.len() == 0 || allowed.contains(channel_id)
}

fn webhook_channels(item: &JsonValue) -> (r: Vec<String>)
    ensures
        strings_view(r@) == webhook_channels_spec(*item),
{
    if as_bool(field(Some(item), "paused")) == Some(true) {
        return Vec::new();
    }
    let a = as_array(field(Some(item), "for_channels"));
    let chs = if a.is_some() {
        a
    } else {
        as_array(field(Some(item), "forChannels"))
    };
    match chs {
        Some(v) => strings_of(v),
        None => Vec::new(),
    }
}

/// The channels served by the synchronised webhooks, in order.
pub fn allowed_channels(synced: &JsonValue) -> (r: Vec<String>)
    ensures
        strings_view(r@) == allowed_channels_spec(*synced),
{
    let mut r: Vec<String> = Vec::new();
    match synced {
        JsonValue::Array(items) => {
            let mut i: usize = 0;
            assert(strings_view(r@) =~= allowed_channels_of(items@.take(0)));
            while i < items.len()
                invariant
                    i <= items.len(),
                    strings_view(r@) == allowed_channels_of(items@.take(i as int)),
                decreases items.len() - i,
            {
                assert(items@.take(i + 1).drop_last() =~= items@.take(i as int));
                assert(items@.take(i + 1).last() == items@[i as int]);
                let mut chs = webhook_channels(&items[i]);
                let ghost before = strings_view(r@);
                let ghost added = strings_view(chs@);
                r.append(&mut chs);
                assert(strings_view(r@) =~= before + added);
                i = i + 1;
            }
            assert(items@.take(items.len() as int) =~= items@);
            r
        },
        _ => r,
    }
}

/// Whether `s` is one of `v`.
pub fn contains_string(v: &Vec<String>, s: &str) -> (b: bool)
    ensures
        b == strings_view(v@).contains(s@),
{
    let mut i: usize = 0;
    while i < v.len()
        invariant
            i <= v.len(),
            forall|j: int| 0 <= j < i ==> v@[j]@ != s@,
        decreases v.len() - i,
    {
        if str_eq(v[i].as_str(), s) {
            assert(strings_view(v@)[i as int] == s@);
            return true;
        }
        i = i + 1;
    }
    assert forall|j: int| 0 <= j < strings_view(v@).len() implies strings_view(v@)[j] != s@ by {
        assert(strings_view(v@)[j] == v@[j]@);
    }
    false
}

/// Whether the webhooks serve `channel_id`.
pub fn channel_allowed(allowed: &Vec<String>, channel_id: &str) -> (b: bool)
    ensures
        b == channel_allowed_spec(strings_view(allowed@), channel_id@),
{
    allowed.len() == 0 || contains_string(allowed, channel_id)
}

/// Two phone numbers match when, keeping only their digits, the allowed
/// one is non-empty and one ends with the other.
pub open spec fn phone_matches(phone: Seq<char>, allowed: Seq<char>) -> bool {
    let cp = digits_only_spec(phone);
    let ca = digits_only_spec(allowed);
    ca.len() > 0 && (seq_ends_with(cp, ca) || seq_ends_with(ca, cp))
}

pub open spec fn is_tester_spec(phone: Seq<char>, allowed: Seq<Seq<char>>) -> bool {
    exists|i: int| 0 <= i < allowed.len() && phone_matches(phone, #[trigger] allowed[i])
}

/// Whether the sender's phone is one of the testers' phones.
pub fn is_tester(phone: &str, allowed_phones: &Vec<String>) -> (b: bool)
    ensures
        b == is_tester_spec(phone@, strings_view(allowed_phones@)),
{
    let clean_phone = digits_only(phone);
    let mut i: usize = 0;
    while i < allowed_phones.len()
        invariant
            i <= allowed_phones.len(),
            clean_phone@ == digits_only_spec(phone@),
            forall|j: int| 0 <= j < i ==> !phone_matches(phone@, #[trigger] allowed_phones@[j]@),
        decreases allowed_phones.len() - i,
    {
        let clean_p = digits_only(allowed_phones[i].as_str());
        if !clean_p.as_str().is_empty() && (ends_with(clean_phone.as_str(), clean_p.as_str()) || ends_with(
            clean_p.as_str(),
            clean_phone.as_str(),
        )) {
            proof {
                assert(clean_p@.len() > 0);
                assert(strings_view(allowed_phones@)[i as int] == allowed_phones@[i as int]@);
            }
            return true;
        }
        i = i + 1;
    }
    assert forall|j: int| 0 <= j < strings_view(allowed_phones@).len() implies !phone_matches(
        phone@,
        #[trigger] strings_view(allowed_phones@)[j],
    ) by {
        assert(strings_view(allowed_phones@)[j] == allowed_phones@[j]@);
    }
    false
}

// ---------------------------------------------------------------------------
// The decision
// ---------------------------------------------------------------------------

/// What becomes of an incoming event.
#[derive(Debug, Clone, Copy, PartialEq, Eq, Structural)]
pub enum WebhookDecision {
    /// The bot is switched off in the dashboard.
    BotPaused,
    /// The event's channel is not served by the synchronised webhooks.
    ChannelNotAllowed,
    /// Test mode is on and the sender is not a tester.
    NotATester,
    /// A human attends the chat (in uTalk or after a hand-over).
    HumanAttending,
    /// The assistant answers; `forced_for_tester` when a tester's message
    /// is answered although a human may attend the chat.
    Answer { forced_for_tester: bool },
}

pub open spec fn decide_spec(
    bot_enabled: bool,
    channel_allowed: bool,
    test_mode_enabled: bool,
    tester: bool,
    has_human_member: bool,
    transferred: bool,
) -> WebhookDecision {
    if !bot_enabled {
        WebhookDecision::BotPaused
    } else if !channel_allowed {
        WebhookDecision::ChannelNotAllowed
    } else if test_mode_enabled && !tester {
        WebhookDecision::NotATester
    } else if !tester && (has_human_member || transferred) {
        WebhookDecision::HumanAttending
    } else {
        WebhookDecision::Answer { forced_for_tester: tester }
    }
}

/// Decides what becomes of an event, from the switches of the
/// configuration and what is known of the chat.
pub fn decide_webhook(
    bot_enabled: bool,
    channel_allowed: bool,
    test_mode_enabled: bool,
    tester: bool,
    has_human_member: bool,
    transferred: bool,
) -> (d: WebhookDecision)
    ensures
        d == decide_spec(
            bot_enabled,
            channel_allowed,
            test_mode_enabled,
            tester,
            has_human_member,
            transferred,
        ),
{
    if !bot_enabled {
        WebhookDecision::BotPaused
    } else if !channel_allowed {
        WebhookDecision::ChannelNotAllowed
    } else if test_mode_enabled && !tester {
        WebhookDecision::NotATester
    } else if !tester && (has_human_member || transferred) {
        WebhookDecision::HumanAttending
    } else {
        WebhookDecision::Answer { forced_for_tester: tester }
    }
}

/// The assistant answers only while the bot is on and the channel is
/// served; a tester is answered even when a human attends the chat, and
/// anyone else only when test mode is off and no human attends it.
pub proof fn law_webhook_answer_conditions(
    bot_enabled: bool,
    channel_allowed: bool,
    test_mode_enabled: bool,
    tester: bool,
    has_human_member: bool,
    transferred: bool,
)
    ensures
        decide_spec(bot_enabled, channel_allowed, test_mode_enabled, tester, has_human_member, transferred) is Answer
            <==> (bot_enabled && channel_allowed && (tester || (!test_mode_enabled && !has_human_member
            && !transferred))),
{
}

/// Phone matching is symmetric between numbers that both hold digits.
pub proof fn law_phone_match_symmetric(a: Seq<char>, b: Seq<char>)
    requires
        digits_only_spec(a).len() > 0,
        digits_only_spec(b).len() > 0,
    ensures
        phone_matches(a, b) == phone_matches(b, a),
{
}


/// A chat assigned to a human attendant is reported as attended: for a
/// message event the chat is the content's `Chat`, for a chat event the
/// content itself; an `OrganizationMember` (or `organizationMember`, or
/// `Member`) object on it, an `OrganizationMember` object on the content,
/// or a non-empty member id on the chat marks a human.  Such a chat is
/// never answered for a sender who is not a tester.
pub proof fn law_assigned_chat_is_attended(
    p: JsonValue,
    bot_enabled: bool,
    channel_allowed: bool,
    test_mode_enabled: bool,
    transferred: bool,
)
    ensures
        ({
            let c = field_spec(field_spec(Some(p), "Payload"@), "Content"@);
            let t = as_str_spec(field_spec(field_spec(Some(p), "Payload"@), "Type"@));
            let chat = if t == Some("Chat"@) { c } else { field_spec(c, "Chat"@) };
            (is_object_spec(field_spec(chat, "OrganizationMember"@))
                || is_object_spec(field_spec(chat, "organizationMember"@))
                || is_object_spec(field_spec(chat, "Member"@))
                || is_object_spec(field_spec(c, "OrganizationMember"@))
                || is_object_spec(field_spec(c, "organizationMember"@))
                || (as_str_spec(field_spec(chat, "MemberId"@)) matches Some(id) && id.len() > 0))
                ==> has_human_member_spec(p)
        }),
        has_human_member_spec(p) ==> !(decide_spec(
            bot_enabled,
            channel_allowed,
            test_mode_enabled,
            false,
            has_human_member_spec(p),
            transferred,
        ) is Answer),
{
    reveal_strlit("Chat");
    assert(Seq::<char>::empty() != "Chat"@) by {
        assert("Chat"@.len() == 4);
    }
}

} // verus!
