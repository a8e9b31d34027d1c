//! The uTalk (Umbler) API as the bot uses it: the addresses of its
//! endpoints, the bodies sent, how answers are read (attendants, webhooks,
//! online members, the media of a message) and the Base64 form in which
//! an audio is handed to the language model.
use vstd::prelude::*;
use base64::Engine;
use crate::json::{
    JsonValue, as_array, as_array_spec, as_bool, as_bool_spec, as_str, as_str_spec, deref_opt,
    field, field_spec, str_or,
};
use crate::text::{concat, str_eq, trim_end_char, trim_end_char_spec};
use crate::webhook::{contains_string, or_default, strings_in, strings_of, strings_view};

verus! {

// ---------------------------------------------------------------------------
// Requests
// ---------------------------------------------------------------------------

/// A text message to a chat.
#[derive(Debug)]
pub struct SendTextMessageRequest {
    pub chat_id: String,
    pub content: String,
    pub message_type: String,
}

pub const MISSING_CREDENTIALS: &'static str = "Token ou Organization ID do uTalk não configurados";

pub const MISSING_AUDIO_DATA: &'static str = "Dados incompletos para buscar áudio";

/// Calls need a token and an organisation.
pub fn check_credentials(token: &str, org_id: &str) -> (r: Result<(), String>)
    ensures
        r is Ok <==> (token@.len() > 0 && org_id@.len() > 0),
        r matches Err(e) ==> e@ == MISSING_CREDENTIALS@,
{
    if token.is_empty() || org_id.is_empty() {
        Err(MISSING_CREDENTIALS.to_owned())
    } else {
        Ok(())
    }
}

/// Fetching an audio needs a token, an organisation and the message id.
pub fn check_audio_request(token: &str, org_id: &str, msg_id: &str) -> (r: Result<(), String>)
    ensures
        r is Ok <==> (token@.len() > 0 && org_id@.len() > 0 && msg_id@.len() > 0),
        r matches Err(e) ==> e@ == MISSING_AUDIO_DATA@,
{
    if token.is_empty() || org_id.is_empty() || msg_id.is_empty() {
        Err(MISSING_AUDIO_DATA.to_owned())
    } else {
        Ok(())
    }
}

/// An endpoint below the API's address (its trailing slashes dropped).
pub open spec fn endpoint_spec(api_url: Seq<char>, path: Seq<char>) -> Seq<char> {
    trim_end_char_spec(api_url, '/') + path
}

/// The address of an endpoint.
pub fn endpoint(api_url: &str, path: &str) -> (r: String)
    ensures
        r@ == endpoint_spec(api_url@, path@),
{
    concat(trim_end_char(api_url, '/').as_str(), path)
}

/// `/messages?organizationId=<org>`: sending messages.
pub fn messages_url(api_url: &str, org_id: &str) -> (r: String)
    ensures
        r@ == endpoint_spec(api_url@, "/messages?organizationId="@ + org_id@),
{
    endpoint(api_url, concat("/messages?organizationId=", org_id).as_str())
}

/// `/organizations/<org>/`: the organisation and its members.
pub fn organization_url(api_url: &str, org_id: &str) -> (r: String)
    ensures
        r@ == endpoint_spec(api_url@, "/organizations/"@ + org_id@ + "/"@),
{
    endpoint(api_url, concat(concat("/organizations/", org_id).as_str(), "/").as_str())
}

/// `/webhooks?organizationId=<org>`: the configured webhooks.
pub fn webhooks_url(api_url: &str, org_id: &str) -> (r: String)
    ensures
        r@ == endpoint_spec(api_url@, "/webhooks?organizationId="@ + org_id@),
{
    endpoint(api_url, concat("/webhooks?organizationId=", org_id).as_str())
}

/// `/members/online/?organizationId=<org>`: the members online.
pub fn online_members_url(api_url: &str, org_id: &str) -> (r: String)
    ensures
        r@ == endpoint_spec(api_url@, "/members/online/?organizationId="@ + org_id@),
{
    endpoint(api_url, concat("/members/online/?organizationId=", org_id).as_str())
}

/// `/chats/<chat>/?organizationId=<org>`: a chat (transfer, tags).
pub fn chat_url(api_url: &str, chat_id: &str, org_id: &str) -> (r: String)
    ensures
        r@ == endpoint_spec(api_url@, "/chats/"@ + chat_id@ + "/?organizationId="@ + org_id@),
{
    let p = concat(concat("/chats/", chat_id).as_str(), "/?organizationId=");
    endpoint(api_url, concat(p.as_str(), org_id).as_str())
}

/// `/messages/<msg>?organizationId=<org>`: one message.
pub fn message_url(api_url: &str, msg_id: &str, org_id: &str) -> (r: String)
    ensures
        r@ == endpoint_spec(api_url@, "/messages/"@ + msg_id@ + "?organizationId="@ + org_id@),
{
    let p = concat(concat("/messages/", msg_id).as_str(), "?organizationId=");
    endpoint(api_url, concat(p.as_str(), org_id).as_str())
}

/// `/tags/?organizationId=<org>`: the organisation's tags.
pub fn tags_url(api_url: &str, org_id: &str) -> (r: String)
    ensures
        r@ == endpoint_spec(api_url@, "/tags/?organizationId="@ + org_id@),
{
    endpoint(api_url, concat("/tags/?organizationId=", org_id).as_str())
}

/// An address ending in slashes names the same endpoints as without them.
pub proof fn law_endpoint_ignores_trailing_slash(api_url: Seq<char>, path: Seq<char>)
    ensures
        endpoint_spec(api_url.push('/'), path) == endpoint_spec(api_url, path),
{
    assert(api_url.push('/').drop_last() =~= api_url);
}

fn text_entry(key: &str, value: &str) -> (r: (String, JsonValue))
    ensures
        r.0@ == key@,
        r.1 matches JsonValue::Str(s) && s@ == value@,
{
    (key.to_owned(), JsonValue::Str(value.to_owned()))
}

pub open spec fn is_text_entry(e: (String, JsonValue), key: Seq<char>, value: Seq<char>) -> bool {
    &&& e.0@ == key
    &&& (e.1 matches JsonValue::Str(s) && s@ == value)
}

/// The body of a text message.
pub fn text_message_body(chat_id: &str, org_id: &str, content: &str) -> (r: JsonValue)
    ensures
        r matches JsonValue::Object(es) && es@.len() == 3
            && is_text_entry(es@[0], "ChatId"@, chat_id@)
            && is_text_entry(es@[1], "OrganizationId"@, org_id@)
            && is_text_entry(es@[2], "Message"@, content@),
{
    let mut es: Vec<(String, JsonValue)> = Vec::new();
    es.push(text_entry("ChatId", chat_id));
    es.push(text_entry("OrganizationId", org_id));
    es.push(text_entry("Message", content));
    JsonValue::Object(es)
}

/// The body of a voice note: the address of the recording, under every
/// key the API may read it from.
pub fn audio_message_body(chat_id: &str, org_id: &str, audio_url: &str) -> (r: JsonValue)
    ensures
        r matches JsonValue::Object(es) && es@.len() == 7
            && is_text_entry(es@[0], "ChatId"@, chat_id@)
            && is_text_entry(es@[1], "OrganizationId"@, org_id@)
            && is_text_entry(es@[2], "MediaUrl"@, audio_url@)
            && is_text_entry(es@[3], "Url"@, audio_url@)
            && is_text_entry(es@[4], "File"@, audio_url@)
            && is_text_entry(es@[5], "Content"@, audio_url@)
            && is_text_entry(es@[6], "MessageType"@, "Audio"@),
{
    let mut es: Vec<(String, JsonValue)> = Vec::new();
    es.push(text_entry("ChatId", chat_id));
    es.push(text_entry("OrganizationId", org_id));
    es.push(text_entry("MediaUrl", audio_url));
    es.push(text_entry("Url", audio_url));
    es.push(text_entry("File", audio_url));
    es.push(text_entry("Content", audio_url));
    es.push(text_entry("MessageType", "Audio"));
    JsonValue::Object(es)
}

/// The body that assigns a chat to a member.
pub fn transfer_body(member_id: &str) -> (r: JsonValue)
    ensures
        r matches JsonValue::Object(es) && es@.len() == 1 && is_text_entry(es@[0], "memberId"@, member_id@),
{
    let mut es: Vec<(String, JsonValue)> = Vec::new();
    es.push(text_entry("memberId", member_id));
    JsonValue::Object(es)
}

// ---------------------------------------------------------------------------
// Answers
// ---------------------------------------------------------------------------

/// The result of a call that sends something: the answer's body on
/// success, else an error that cites `error_prefix`, the status and the
/// body.
pub open spec fn send_outcome_spec(success: bool, status: Seq<char>, body: Seq<char>, error_prefix: Seq<char>) -> Result<
    Seq<char>,
    Seq<char>,
> {
    if success {
        Ok(body)
    } else {
        Err(error_prefix + status + ": "@ + body)
    }
}

pub open spec fn result_string_view(r: Result<String, String>) -> Result<Seq<char>, Seq<char>> {
    match r {
        Ok(s) => Ok(s@),
        Err(e) => Err(e@),
    }
}

/// The result of sending a message or a voice note (`status` as HTTP
/// renders it, `body` the answer's text when it could be read).
pub fn send_outcome(success: bool, status: &str, body: Option<String>) -> (r: Result<String, String>)
    ensures
        result_string_view(r) == send_outcome_spec(
            success,
            status@,
            or_default(
                match body {
                    Some(b) => Some(b@),
                    None => None,
                },
                "Sem corpo de resposta"@,
            ),
            "Erro uTalk HTTP "@,
        ),
{
    let text = match body {
        Some(b) => b,
        None => "Sem corpo de resposta".to_owned(),
    };
    if success {
        Ok(text)
    } else {
        let a = concat(concat("Erro uTalk HTTP ", status).as_str(), ": ");
        Err(concat(a.as_str(), text.as_str()))
    }
}

/// The result of a transfer (an unreadable answer reads as empty).
pub fn transfer_outcome(success: bool, status: &str, body: Option<String>) -> (r: Result<String, String>)
    ensures
        result_string_view(r) == send_outcome_spec(
            success,
            status@,
            or_default(
                match body {
                    Some(b) => Some(b@),
                    None => None,
                },
                Seq::empty(),
            ),
            "Erro ao transferir chat uTalk HTTP "@,
        ),
{
    proof {
        reveal_strlit("");
    }
    let text = match body {
        Some(b) => b,
        None => String::new(),
    };
    if success {
        Ok(text)
    } else {
        let a = concat(concat("Erro ao transferir chat uTalk HTTP ", status).as_str(), ": ");
        Err(concat(a.as_str(), text.as_str()))
    }
}

/// A human attendant of the organisation.
#[derive(Debug)]
pub struct UtalkOperator {
    pub id: String,
    pub name: String,
    pub email: String,
    pub active: bool,
    pub is_online: bool,
}

pub open spec fn operator_view(o: UtalkOperator) -> (Seq<char>, Seq<char>, Seq<char>, bool, bool) {
    (o.id@, o.name@, o.email@, o.active, o.is_online)
}

/// The attendant a member entry describes, when it is a human agent with
/// an id: its display name (or name; "Sem nome" when neither is text),
/// e-mail, whether it is active and whether it is online.
pub open spec fn operator_of(m: JsonValue, online: Seq<Seq<char>>) -> Option<(Seq<char>, Seq<char>, Seq<char>, bool, bool)> {
    let e = Some(m);
    let kind = str_or(field_spec(e, "_t"@), Seq::empty());
    let id = str_or(field_spec(e, "id"@), Seq::empty());
    let dn = field_spec(e, "displayName"@);
    let name_node = if dn is Some {
        dn
    } else {
        field_spec(e, "name"@)
    };
    if kind == "OrganizationHumanAgentReferenceModel"@ && id.len() > 0 {
        Some(
            (
                id,
                str_or(name_node, "Sem nome"@),
                str_or(field_spec(e, "emailAddress"@), Seq::empty()),
                as_bool_spec(field_spec(e, "active"@)) == Some(true),
                online.contains(id),
            ),
        )
    } else {
        None
    }
}

pub open spec fn operators_of(ms: Seq<JsonValue>, online: Seq<Seq<char>>) -> Seq<(Seq<char>, Seq<char>, Seq<char>, bool, bool)>
    decreases ms.len(),
{
    if ms.len() == 0 {
        Seq::empty()
    } else {
        operators_of(ms.drop_last(), online) + match operator_of(ms.last(), online) {
            Some(o) => seq![o],
            None => Seq::empty(),
        }
    }
}

pub open spec fn members_of(org: JsonValue) -> Seq<JsonValue> {
    match as_array_spec(field_spec(Some(org), "organizationMembers"@)) {
        Some(a) => a,
        None => Seq::empty(),
    }
}

fn str_field_or(e: Option<&JsonValue>, key: &str, default: &str) -> (r: String)
    ensures
        r@ == str_or(field_spec(deref_opt(e), key@), default@),
{
    match as_str(field(e, key)) {
        Some(s) => s,
        None => default.to_owned(),
    }
}

fn operator_from(m: &JsonValue, online: &Vec<String>) -> (r: Option<UtalkOperator>)
    ensures
        match r {
            Some(o) => operator_of(*m, strings_view(online@)) == Some(operator_view(o)),
            None => operator_of(*m, strings_view(online@)) is None,
        },
{
    proof {
        reveal_strlit("");
        assert(""@ =~= Seq::<char>::empty());
    }
    let e = Some(m);
    let kind = str_field_or(e, "_t", "");
    let id = str_field_or(e, "id", "");
    if !str_eq(kind.as_str(), "OrganizationHumanAgentReferenceModel") || id.as_str().is_empty() {
        return None;
    }
    let dn = field(e, "displayName");
    let name_node = if dn.is_some() {
        dn
    } else {
        field(e, "name")
    };
    let name = match as_str(name_node) {
        Some(s) => s,
        None => "Sem nome".to_owned(),
    };
    let email = str_field_or(e, "emailAddress", "");
    let active = as_bool(field(e, "active")) == Some(true);
    let is_online = contains_string(online, id.as_str());
    Some(UtalkOperator { id, name, email, active, is_online })
}

/// The human attendants listed in an organisation's members, in order,
/// each marked online when its id is among `online_ids`.
pub fn operators_from(org: &JsonValue, online_ids: &Vec<String>) -> (r: Vec<UtalkOperator>)
    ensures
        r@.map_values(|o: UtalkOperator| operator_view(o)) == operators_of(members_of(*org), strings_view(online_ids@)),
{
    let mut r: Vec<UtalkOperator> = Vec::new();
    let ghost online = strings_view(online_ids@);
    match as_array(field(Some(org), "organizationMembers")) {
        Some(ms) => {
            let mut i: usize = 0;
            assert(r@.map_values(|o: UtalkOperator| operator_view(o)) =~= operators_of(ms@.take(0), online));
            while i < ms.len()
                invariant
                    i <= ms.len(),
                    online == strings_view(online_ids@),
                    r@.map_values(|o: UtalkOperator| operator_view(o)) == operators_of(ms@.take(i as int), online),
                decreases ms.len() - i,
            {
                assert(ms@.take(i + 1).drop_last() =~= ms@.take(i as int));
                assert(ms@.take(i + 1).last() == ms@[i as int]);
                let ghost before = r@.map_values(|o: UtalkOperator| operator_view(o));
                match operator_from(&ms[i], online_ids) {
                    Some(o) => {
                        let ghost ov = operator_view(o);
                        r.push(o);
                        assert(r@.map_values(|o: UtalkOperator| operator_view(o)) =~= before + seq![ov]);
                    },
                    None => {
                        assert(operators_of(ms@.take(i + 1), online) =~= before);
                    },
                }
                i = i + 1;
            }
            assert(ms@.take(ms.len() as int) =~= ms@);
            r
        },
        None => {
            assert(r@.map_values(|o: UtalkOperator| operator_view(o)) =~= Seq::empty());
            r
        },
    }
}

/// The name under which a hand-over is recorded: the attendant's name
/// when the organisation lists it, else its id.
pub open spec fn attendant_name_spec(ops: Seq<UtalkOperator>, id: Seq<char>) -> Seq<char>
    decreases ops.len(),
{
    if ops.len() == 0 {
        id
    } else if ops[0].id@ == id {
        ops[0].name@
    } else {
        attendant_name_spec(ops.drop_first(), id)
    }
}

/// The name of the attendant with the given id.
pub fn attendant_name(ops: &Vec<UtalkOperator>, id: &str) -> (r: String)
    ensures
        r@ == attendant_name_spec(ops@, id@),
{
    let mut i: usize = 0;
    assert(ops@.skip(0) =~= ops@);
    while i < ops.len()
        invariant
            i <= ops.len(),
            attendant_name_spec(ops@, id@) == attendant_name_spec(ops@.skip(i as int), id@),
        decreases ops.len() - i,
    {
        assert(ops@.skip(i as int).drop_first() =~= ops@.skip(i + 1));
        assert(ops@.skip(i as int)[0] == ops@[i as int]);
        if str_eq(ops[i].id.as_str(), id) {
            return ops[i].name.clone();
        }
        i = i + 1;
    }
    id.to_owned()
}

/// A webhook configured in uTalk.
#[derive(Debug)]
pub struct UtalkWebhookConfig {
    pub id: String,
    pub name: String,
    pub url: String,
    pub paused: bool,
    pub for_channels: Vec<String>,
    pub events: Vec<String>,
}

pub open spec fn webhook_view(w: UtalkWebhookConfig) -> (Seq<char>, Seq<char>, Seq<char>, bool, Seq<Seq<char>>, Seq<Seq<char>>) {
    (w.id@, w.name@, w.url@, w.paused, strings_view(w.for_channels@), strings_view(w.events@))
}

pub open spec fn strings_at(v: Option<JsonValue>) -> Seq<Seq<char>> {
    match as_array_spec(v) {
        Some(a) => strings_in(a),
        None => Seq::empty(),
    }
}

/// How a webhook entry of the API reads ("Sem nome" without a name; not
/// paused unless it says so).
pub open spec fn webhook_of(item: JsonValue) -> (Seq<char>, Seq<char>, Seq<char>, bool, Seq<Seq<char>>, Seq<Seq<char>>) {
    let e = Some(item);
    (
        str_or(field_spec(e, "id"@), Seq::empty()),
        str_or(field_spec(e, "name"@), "Sem nome"@),
        str_or(field_spec(e, "url"@), Seq::empty()),
        as_bool_spec(field_spec(e, "paused"@)) == Some(true),
        strings_at(field_spec(e, "forChannels"@)),
        strings_at(field_spec(e, "events"@)),
    )
}

fn strings_at_field(e: Option<&JsonValue>, key: &str) -> (r: Vec<String>)
    ensures
        strings_view(r@) == strings_at(field_spec(deref_opt(e), key@)),
{
    match as_array(field(e, key)) {
        Some(a) => strings_of(a),
        None => {
            let r: Vec<String> = Vec::new();
            assert(strings_view(r@) =~= Seq::empty());
            r
        },
    }
}

/// The webhooks an API answer lists, in order.
pub fn webhooks_from(items: &Vec<JsonValue>) -> (r: Vec<UtalkWebhookConfig>)
    ensures
        r@.len() == items@.len(),
        forall|i: int| 0 <= i < items@.len() ==> webhook_view(#[trigger] r@[i]) == webhook_of(items@[i]),
{
    let mut r: Vec<UtalkWebhookConfig> = Vec::new();
    let mut i: usize = 0;
    while i < items.len()
        invariant
            i <= items.len(),
            r@.len() == i,
            forall|j: int| 0 <= j < i ==> webhook_view(#[trigger] r@[j]) == webhook_of(items@[j]),
        decreases items.len() - i,
    {
        proof {
            reveal_strlit("");
            assert(""@ =~= Seq::<char>::empty());
        }
        let e = Some(&items[i]);
        let w = UtalkWebhookConfig {
            id: str_field_or(e, "id", ""),
            name: str_field_or(e, "name", "Sem nome"),
            url: str_field_or(e, "url", ""),
            paused: as_bool(field(e, "paused")) == Some(true),
            for_channels: strings_at_field(e, "forChannels"),
            events: strings_at_field(e, "events"),
        };
        r.push(w);
        i = i + 1;
    }
    r
}

pub open spec fn online_id_of(item: JsonValue) -> Option<Seq<char>> {
    as_str_spec(field_spec(Some(item), "id"@))
}

pub open spec fn online_ids_of(items: Seq<JsonValue>) -> Seq<Seq<char>>
    decreases items.len(),
{
    if items.len() == 0 {
        Seq::empty()
    } else {
        online_ids_of(items.drop_last()) + match online_id_of(items.last()) {
            Some(s) => seq![s],
            None => Seq::empty(),
        }
    }
}

/// The ids of the members online (an array of members; anything else
/// lists none).
pub fn online_ids_from(val: &JsonValue) -> (r: Vec<String>)
    ensures
        strings_view(r@) == match as_array_spec(Some(*val)) {
            Some(a) => online_ids_of(a),
            None => Seq::empty(),
        },
{
    let mut r: Vec<String> = Vec::new();
    match as_array(Some(val)) {
        Some(a) => {
            let mut i: usize = 0;
            assert(strings_view(r@) =~= online_ids_of(a@.take(0)));
            while i < a.len()
                invariant
                    i <= a.len(),
                    strings_view(r@) == online_ids_of(a@.take(i as int)),
                decreases a.len() - i,
            {
                assert(a@.take(i + 1).drop_last() =~= a@.take(i as int));
                assert(a@.take(i + 1).last() == a@[i as int]);
                match as_str(field(Some(&a[i]), "id")) {
                    Some(s) => {
                        let ghost sv = s@;
                        r.push(s);
                        assert(strings_view(r@) =~= online_ids_of(a@.take(i as int)) + seq![sv]);
                    },
                    None => {
                        assert(strings_view(r@) =~= online_ids_of(a@.take(i + 1)));
                    },
                }
                i = i + 1;
            }
            assert(a@.take(a.len() as int) =~= a@);
            r
        },
        None => {
            assert(strings_view(r@) =~= Seq::empty());
            r
        },
    }
}

// ---------------------------------------------------------------------------
// Audio of a message
// ---------------------------------------------------------------------------

pub open spec fn first_text(vs: Seq<Option<JsonValue>>) -> Option<Seq<char>>
    decreases vs.len(),
{
    if vs.len() == 0 {
        None
    } else {
        match as_str_spec(vs[0]) {
            Some(s) => Some(s),
            None => first_text(vs.drop_first()),
        }
    }
}

pub open spec fn at2(m: JsonValue, a: Seq<char>, b: Seq<char>) -> Option<JsonValue> {
    field_spec(field_spec(Some(m), a), b)
}

/// Where a message's media is: `file.url`, `File.Url`, `media.url`,
/// `Media.Url`, `mediaUrl` or `MediaUrl`, the first that is text.
pub open spec fn media_url_spec(m: JsonValue) -> Option<Seq<char>> {
    first_text(
        seq![
            at2(m, "file"@, "url"@),
            at2(m, "File"@, "Url"@),
            at2(m, "media"@, "url"@),
            at2(m, "Media"@, "Url"@),
            field_spec(Some(m), "mediaUrl"@),
            field_spec(Some(m), "MediaUrl"@),
        ],
    )
}

/// The media's type, "audio/mp3" when the message does not say.
pub open spec fn media_type_spec(m: JsonValue) -> Seq<char> {
    or_default(
        first_text(
            seq![
                at2(m, "file"@, "contentType"@),
                at2(m, "File"@, "ContentType"@),
                at2(m, "media"@, "contentType"@),
                at2(m, "Media"@, "ContentType"@),
            ],
        ),
        "audio/mp3"@,
    )
}

fn first_of(vs: &Vec<Option<&JsonValue>>) -> (r: Option<String>)
    ensures
        match r {
            Some(s) => first_text(vs@.map_values(|v: Option<&JsonValue>| deref_opt(v))) == Some(s@),
            None => first_text(vs@.map_values(|v: Option<&JsonValue>| deref_opt(v))) is None,
        },
{
    let ghost ds = vs@.map_values(|v: Option<&JsonValue>| deref_opt(v));
    let mut i: usize = 0;
    assert(ds.skip(0) =~= ds);
    while i < vs.len()
        invariant
            i <= vs.len(),
            ds == vs@.map_values(|v: Option<&JsonValue>| deref_opt(v)),
            first_text(ds) == first_text(ds.skip(i as int)),
        decreases vs.len() - i,
    {
        assert(ds.skip(i as int).drop_first() =~= ds.skip(i + 1));
        assert(ds.skip(i as int)[0] == deref_opt(vs@[i as int]));
        match as_str(vs[i]) {
            Some(s) => {
                return Some(s);
            },
            None => {},
        }
        i = i + 1;
    }
    None
}

/// The media address and type a message names.
pub fn media_of_message(m: &JsonValue) -> (r: (Option<String>, String))
    ensures
        match r.0 {
            Some(u) => media_url_spec(*m) == Some(u@),
            None => media_url_spec(*m) is None,
        },
        r.1@ == media_type_spec(*m),
{
    let e = Some(m);
    let mut urls: Vec<Option<&JsonValue>> = Vec::new();
    urls.push(field(field(e, "file"), "url"));
    urls.push(field(field(e, "File"), "Url"));
    urls.push(field(field(e, "media"), "url"));
    urls.push(field(field(e, "Media"), "Url"));
    urls.push(field(e, "mediaUrl"));
    urls.push(field(e, "MediaUrl"));
    let url = first_of(&urls);
    assert(urls@.map_values(|v: Option<&JsonValue>| deref_opt(v)) =~= seq![
        at2(*m, "file"@, "url"@),
        at2(*m, "File"@, "Url"@),
        at2(*m, "media"@, "url"@),
        at2(*m, "Media"@, "Url"@),
        field_spec(Some(*m), "mediaUrl"@),
        field_spec(Some(*m), "MediaUrl"@),
    ]);
    let mut types: Vec<Option<&JsonValue>> = Vec::new();
    types.push(field(field(e, "file"), "contentType"));
    types.push(field(field(e, "File"), "ContentType"));
    types.push(field(field(e, "media"), "contentType"));
    types.push(field(field(e, "Media"), "ContentType"));
    let ty = first_of(&types);
    assert(types@.map_values(|v: Option<&JsonValue>| deref_opt(v)) =~= seq![
        at2(*m, "file"@, "contentType"@),
        at2(*m, "File"@, "ContentType"@),
        at2(*m, "media"@, "contentType"@),
        at2(*m, "Media"@, "ContentType"@),
    ]);
    let content_type = match ty {
        Some(t) => t,
        None => "audio/mp3".to_owned(),
    };
    (url, content_type)
}

/// The number of times a message is read while its audio is processed.
pub const AUDIO_FETCH_ATTEMPTS: u32 = 4;

/// What to do after reading a message for its audio.
#[derive(Debug)]
pub enum AudioFetchStep {
    /// Download the recording from this address.
    Download { url: String },
    /// Wait and read the message again.
    Retry,
    /// The message has no recording.
    GiveUp,
}

pub open spec fn has_media(read_ok: bool, media_url: Option<String>) -> bool {
    read_ok && match media_url {
        Some(u) => u@.len() > 0,
        None => false,
    }
}

/// After attempt `attempt` (counted from one), found the message
/// (`read_ok`) and, in it, `media_url`: the recording is downloaded when
/// its address is known and not empty; otherwise the message is read
/// again, up to four times in all.
pub fn audio_fetch_step(attempt: u32, read_ok: bool, media_url: Option<String>) -> (r: AudioFetchStep)
    ensures
        has_media(read_ok, media_url) ==> (r matches AudioFetchStep::Download { url } && url@
            == media_url->0@),
        !has_media(read_ok, media_url) ==> (if attempt < AUDIO_FETCH_ATTEMPTS {
            r is Retry
        } else {
            r is GiveUp
        }),
{
    if read_ok {
        if let Some(u) = media_url {
            if !u.as_str().is_empty() {
                return AudioFetchStep::Download { url: u };
            }
        }
    }
    if attempt < AUDIO_FETCH_ATTEMPTS {
        AudioFetchStep::Retry
    } else {
        AudioFetchStep::GiveUp
    }
}

pub const AUDIO_NOT_FOUND: &'static str = "URL da mídia de áudio não encontrada na mensagem do uTalk após 4 tentativas";

// ---------------------------------------------------------------------------
// Base64
// ---------------------------------------------------------------------------

/// The character of the standard Base64 alphabet for a six-bit value.
pub open spec fn b64_char(v: nat) -> char {
    if v < 26 {
        (65 + v) as char
    } else if v < 52 {
        (71 + v) as char
    } else if v < 62 {
        (v - 4) as char
    } else if v == 62 {
        '+'
    } else {
        '/'
    }
}

/// Standard Base64 (RFC 4648 alphabet, `=` padding) of a byte sequence.
pub open spec fn base64_spec(b: Seq<u8>) -> Seq<char>
    decreases b.len(),
{
    if b.len() == 0 {
        Seq::empty()
    } else if b.len() == 1 {
        seq![b64_char((b[0] / 4) as nat), b64_char(((b[0] % 4) * 16) as nat), '=', '=']
    } else if b.len() == 2 {
        seq![
            b64_char((b[0] / 4) as nat),
            b64_char(((b[0] % 4) * 16 + b[1] / 16) as nat),
            b64_char(((b[1] % 16) * 4) as nat),
            '=',
        ]
    } else {
        seq![
            b64_char((b[0] / 4) as nat),
            b64_char(((b[0] % 4) * 16 + b[1] / 16) as nat),
            b64_char(((b[1] % 16) * 4 + b[2] / 64) as nat),
            b64_char((b[2] % 64) as nat),
        ] + base64_spec(b.skip(3))
    }
}

/// `base64::engine::general_purpose::STANDARD.encode`: the standard
/// alphabet with `=` padding.  It panics when the encoded length overflows,
/// which the bound on the input excludes.
#[verifier::external_body]
fn encode_base64(bytes: &[u8]) -> (r: String)
    requires
        bytes@.len() <= usize::MAX / 4 * 3,
    ensures
        r@ == base64_spec(bytes@),
{
    base64::engine::general_purpose::STANDARD.encode(bytes)
}

/// An audio as handed to the language model: its type and its bytes in
/// Base64.
pub fn audio_payload(content_type: String, bytes: &Vec<u8>) -> (r: (String, String))
    requires
        bytes@.len() <= usize::MAX / 4 * 3,
    ensures
        r.0@ == content_type@,
        r.1@ == base64_spec(bytes@),
{
    (content_type, encode_base64(bytes.as_slice()))
}

/// Base64 writes four characters for every three bytes begun.
pub proof fn law_base64_length(b: Seq<u8>)
    ensures
        base64_spec(b).len() == 4 * ((b.len() + 2) / 3),
    decreases b.len(),
{
    if b.len() >= 3 {
        law_base64_length(b.skip(3));
    }
}

} // verus!
