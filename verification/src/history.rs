//! The chat history handed to the language model, and the time elapsed
//! since the last message: after a long pause the model is told to treat
//! the client as a new contact.
use vstd::prelude::*;
use crate::text::{concat, i64_to_decimal, signed_decimal};

verus! {

/// An instant as seconds and nanoseconds since the Unix epoch (the
/// nanoseconds exceed 999 999 999 only within a leap second).
#[derive(Debug)]
pub struct Instant {
    pub secs: i64,
    pub nanos: u32,
}

/// The instant that an RFC 3339 date-time denotes, as
/// `(seconds, nanoseconds)` since the epoch; `None` when the text is not
/// an RFC 3339 date-time.
pub uninterp spec fn rfc3339_instant(text: Seq<char>) -> Option<(i64, u32)>;

/// The RFC 3339 rendering, in UTC, of an instant; `None` when the instant
/// lies outside the representable range.
pub uninterp spec fn rfc3339_text(secs: i64, nanos: u32) -> Option<Seq<char>>;

/// `chrono::DateTime::parse_from_rfc3339`, taken to its Unix timestamp
/// and sub-second nanoseconds.  The result is named, not restated: it is a
/// function of the text alone.
#[verifier::external_body]
pub(crate) fn parse_rfc3339(text: &str) -> (r: Option<(i64, u32)>)
    ensures
        r == rfc3339_instant(text@),
{
    chrono::DateTime::parse_from_rfc3339(text).ok().map(|dt| (dt.timestamp(), dt.timestamp_subsec_nanos()))
}

/// `chrono::DateTime::<Utc>::from_timestamp` followed by `to_rfc3339`: the
/// instant written as an RFC 3339 date-time in UTC, `None` when chrono
/// cannot represent it.  The text is named, not restated.
#[verifier::external_body]
pub(crate) fn format_rfc3339(t: &Instant) -> (r: Option<String>)
    ensures
        match r {
            Some(s) => rfc3339_text(t.secs, t.nanos) == Some(s@),
            None => rfc3339_text(t.secs, t.nanos) is None,
        },
{
    chrono::DateTime::<chrono::Utc>::from_timestamp(t.secs, t.nanos).map(|dt| dt.to_rfc3339())
}

pub open spec fn nanos_of(secs: int, nanos: int) -> int {
    secs * 1_000_000_000 + nanos
}

/// Division truncated toward zero, as integer division in Rust.
pub open spec fn trunc_div(a: int, d: int) -> int
    recommends
        d > 0,
{
    if a >= 0 {
        a / d
    } else {
        -((-a) / d)
    }
}

pub open spec fn elapsed_nanos(now: Instant, then: (i64, u32)) -> int {
    nanos_of(now.secs as int, now.nanos as int) - nanos_of(then.0 as int, then.1 as int)
}

pub open spec fn whole_hours(ns: int) -> int {
    trunc_div(ns, 3_600_000_000_000)
}

pub open spec fn whole_days(ns: int) -> int {
    trunc_div(ns, 86_400_000_000_000)
}

proof fn lemma_elapsed_bounds(now: Instant, then: (i64, u32))
    ensures
        -20_000_000_000_000_000_000_000_000_000i128 <= elapsed_nanos(now, then)
            <= 20_000_000_000_000_000_000_000_000_000i128,
{
    assert(-9_223_372_036_854_775_808_000_000_000 <= nanos_of(now.secs as int, now.nanos as int)
        <= 9_223_372_036_854_775_807_000_000_000 + 4_294_967_295) by (nonlinear_arith)
        requires
            i64::MIN <= now.secs <= i64::MAX,
            0 <= now.nanos <= u32::MAX,
    ;
    assert(-9_223_372_036_854_775_808_000_000_000 <= nanos_of(then.0 as int, then.1 as int)
        <= 9_223_372_036_854_775_807_000_000_000 + 4_294_967_295) by (nonlinear_arith)
        requires
            i64::MIN <= then.0 <= i64::MAX,
            0 <= then.1 <= u32::MAX,
    ;
}

fn elapsed_between(now: &Instant, then: (i64, u32)) -> (r: i128)
    ensures
        r == elapsed_nanos(*now, then),
{
    proof {
        lemma_elapsed_bounds(*now, then);
        assert(-9_223_372_036_854_775_808_000_000_000 <= (now.secs as int) * 1_000_000_000
            <= 9_223_372_036_854_775_807_000_000_000) by (nonlinear_arith)
            requires
                i64::MIN <= now.secs <= i64::MAX,
        ;
        assert(-9_223_372_036_854_775_808_000_000_000 <= (then.0 as int) * 1_000_000_000
            <= 9_223_372_036_854_775_807_000_000_000) by (nonlinear_arith)
            requires
                i64::MIN <= then.0 <= i64::MAX,
        ;
    }
    let a: i128 = (now.secs as i128) * 1_000_000_000 + (now.nanos as i128);
    let b: i128 = (then.0 as i128) * 1_000_000_000 + (then.1 as i128);
    a - b
}

fn div_toward_zero(a: i128, d: i128) -> (r: i64)
    requires
        d >= 3_600_000_000_000,
        -20_000_000_000_000_000_000_000_000_000i128 <= a <= 20_000_000_000_000_000_000_000_000_000i128,
    ensures
        r == trunc_div(a as int, d as int),
{
    if a >= 0 {
        proof {
            assert(a / d <= 20_000_000_000_000_000_000_000_000_000i128 / 3_600_000_000_000) by (nonlinear_arith)
                requires
                    0 <= a <= 20_000_000_000_000_000_000_000_000_000i128,
                    d >= 3_600_000_000_000,
            ;
        }
        (a / d) as i64
    } else {
        proof {
            let na: int = -(a as int);
            assert(na / (d as int) <= 20_000_000_000_000_000_000_000_000_000int / 3_600_000_000_000) by (nonlinear_arith)
                requires
                    0 < na <= 20_000_000_000_000_000_000_000_000_000int,
                    d >= 3_600_000_000_000,
            ;
        }
        -(((-a) / d) as i64)
    }
}

/// One turn of the conversation, as the language models take it.
#[derive(Debug)]
pub struct ChatTurn {
    pub role: String,
    pub text: String,
}

/// A message of the store, with its row id and the instant it was stored.
#[derive(Debug)]
pub struct StoredMessage {
    pub id: i64,
    pub chat_id: String,
    pub role: String,
    pub content: String,
    pub timestamp: Instant,
}

/// A stored message.
#[derive(Debug)]
pub struct HistoryRow {
    pub role: String,
    pub content: String,
    pub created_at: String,
}

/// The recent history of a chat, oldest first, and the whole hours since
/// its last message (`None` for a chat without messages).
#[derive(Debug)]
pub struct ChatContext {
    pub turns: Vec<ChatTurn>,
    pub hours_since_last: Option<i64>,
}

pub open spec fn turn_view(t: ChatTurn) -> (Seq<char>, Seq<char>) {
    (t.role@, t.text@)
}

pub open spec fn row_turn(r: HistoryRow) -> (Seq<char>, Seq<char>) {
    (r.role@, r.content@)
}

/// The note that opens the history after a long pause.
pub open spec fn pause_note(days: int, hours: int) -> Seq<char> {
    "[AVISO DO SISTEMA: Se passaram "@ + signed_decimal(days) + " dias ("@ + signed_decimal(hours)
        + " horas) desde a última conversa com este cliente. Trate como um novo atendimento/contato, mantendo cordialidade.]"@
}

/// When the last message was sent: its stored time, or `now` when that
/// time cannot be read.
pub open spec fn last_time(rows_newest_first: Seq<HistoryRow>, now: Instant) -> (i64, u32) {
    match rfc3339_instant(rows_newest_first[0].created_at@) {
        Some(t) => t,
        None => (now.secs, now.nanos),
    }
}

/// The turns of the context: the stored messages, oldest first, preceded
/// by a note from the system when the pause is longer than `gap_hours`.
pub open spec fn context_turns(rows_newest_first: Seq<HistoryRow>, now: Instant, gap_hours: int) -> Seq<
    (Seq<char>, Seq<char>),
> {
    if rows_newest_first.len() == 0 {
        Seq::empty()
    } else {
        let ns = elapsed_nanos(now, last_time(rows_newest_first, now));
        let history = rows_newest_first.reverse().map_values(|r: HistoryRow| row_turn(r));
        if ns > gap_hours * 3_600_000_000_000 {
            seq![("user"@, pause_note(whole_days(ns), whole_hours(ns)))] + history
        } else {
            history
        }
    }
}

pub open spec fn context_hours(rows_newest_first: Seq<HistoryRow>, now: Instant) -> Option<int> {
    if rows_newest_first.len() == 0 {
        None
    } else {
        Some(whole_hours(elapsed_nanos(now, last_time(rows_newest_first, now))))
    }
}

/// Builds the context of a chat from its most recent stored messages
/// (newest first, as read), the current time and the pause, in hours,
/// after which the client is treated as a new contact.
pub fn chat_context(rows_newest_first: &Vec<HistoryRow>, now: &Instant, gap_hours: i64) -> (c: ChatContext)
    ensures
        c.turns@.map_values(|t: ChatTurn| turn_view(t)) == context_turns(rows_newest_first@, *now, gap_hours as int),
        match c.hours_since_last {
            Some(h) => context_hours(rows_newest_first@, *now) == Some(h as int),
            None => context_hours(rows_newest_first@, *now) is None,
        },
{
    let mut turns: Vec<ChatTurn> = Vec::new();
    let n = rows_newest_first.len();
    if n == 0 {
        assert(turns@.map_values(|t: ChatTurn| turn_view(t)) =~= Seq::empty());
        return ChatContext { turns, hours_since_last: None };
    }
    let last = match parse_rfc3339(rows_newest_first[0].created_at.as_str()) {
        Some(t) => t,
        None => (now.secs, now.nanos),
    };
    let ns = elapsed_between(now, last);
    proof {
        lemma_elapsed_bounds(*now, last);
    }
    let hours = div_toward_zero(ns, 3_600_000_000_000);
    proof {
        assert(-40_000_000_000_000_000_000_000_000_000_000i128 <= (gap_hours as int) * 3_600_000_000_000
            <= 40_000_000_000_000_000_000_000_000_000_000i128) by (nonlinear_arith)
            requires
                i64::MIN <= gap_hours <= i64::MAX,
        ;
    }
    let gap_nanos: i128 = (gap_hours as i128) * 3_600_000_000_000;
    if ns > gap_nanos {
        let days = div_toward_zero(ns, 86_400_000_000_000);
        let a = concat("[AVISO DO SISTEMA: Se passaram ", i64_to_decimal(days).as_str());
        let b = concat(a.as_str(), " dias (");
        let c = concat(b.as_str(), i64_to_decimal(hours).as_str());
        let note = concat(
            c.as_str(),
            " horas) desde a última conversa com este cliente. Trate como um novo atendimento/contato, mantendo cordialidade.]",
        );
        turns.push(ChatTurn { role: "user".to_owned(), text: note });
    }
    let ghost prefix = turns@.map_values(|t: ChatTurn| turn_view(t));
    let ghost rev = rows_newest_first@.reverse().map_values(|r: HistoryRow| row_turn(r));
    let mut k: usize = 0;
    while k < n
        invariant
            n == rows_newest_first.len(),
            k <= n,
            rev == rows_newest_first@.reverse().map_values(|r: HistoryRow| row_turn(r)),
            turns@.map_values(|t: ChatTurn| turn_view(t)) == prefix + rev.take(k as int),
        decreases n - k,
    {
        let row = &rows_newest_first[n - 1 - k];
        let ghost before = turns@.map_values(|t: ChatTurn| turn_view(t));
        turns.push(ChatTurn { role: row.role.clone(), text: row.content.clone() });
        assert(rev[k as int] == row_turn(rows_newest_first@[n - 1 - k]));
        assert(turns@.map_values(|t: ChatTurn| turn_view(t)) =~= before.push(rev[k as int]));
        assert(rev.take(k + 1) =~= rev.take(k as int).push(rev[k as int]));
        k = k + 1;
    }
    assert(rev.take(n as int) =~= rev);
    ChatContext { turns, hours_since_last: Some(hours) }
}

} // verus!
