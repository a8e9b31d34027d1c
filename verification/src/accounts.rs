//! Dashboard access: reading the session token of a request, the session
//! cookie, session tokens and their lifetime, checking credentials, and
//! the rules for adding, deleting and changing administrators.
use vstd::prelude::*;
use crate::history::{Instant, format_rfc3339, rfc3339_text};
use crate::text::{
    concat, i64_to_lower_hex, lower_hex, seq_starts_with, starts_with, str_eq, to_lowercase, trim,
    trim_spec, unicode_lowercase, chars_of, slice_chars, string_of,
};
use crate::webhook::strings_view;

verus! {

// ---------------------------------------------------------------------------
// The session token of a request
// ---------------------------------------------------------------------------

/// `s` cut at every `sep` (`str::split` with a character): the pieces
/// between separators, empty ones included.
pub open spec fn split_char(s: Seq<char>, sep: char) -> Seq<Seq<char>>
    decreases s.len(),
{
    if s.len() == 0 {
        seq![Seq::<char>::empty()]
    } else {
        let init = split_char(s.drop_last(), sep);
        if s.last() == sep {
            init.push(Seq::empty())
        } else {
            init.update(init.len() - 1, init.last().push(s.last()))
        }
    }
}

proof fn lemma_split_nonempty(s: Seq<char>, sep: char)
    ensures
        split_char(s, sep).len() >= 1,
    decreases s.len(),
{
    if s.len() > 0 {
        lemma_split_nonempty(s.drop_last(), sep);
    }
}

/// The value of a `session_token=...` cookie (the piece trimmed, cut at
/// its first `=`).
pub open spec fn cookie_piece_token(piece: Seq<char>) -> Option<Seq<char>> {
    let t = trim_spec(piece);
    if exists|j: int| 0 <= j < t.len() && t[j] == '=' {
        let j = choose|j: int| 0 <= j < t.len() && t[j] == '=' && forall|k: int| 0 <= k < j ==> t[k] != '=';
        if t.take(j) == "session_token"@ {
            Some(t.skip(j + 1))
        } else {
            None
        }
    } else {
        None
    }
}

/// The token of the first session cookie among the pieces.
pub open spec fn first_cookie_token(pieces: Seq<Seq<char>>) -> Option<Seq<char>>
    decreases pieces.len(),
{
    if pieces.len() == 0 {
        None
    } else {
        match cookie_piece_token(pieces[0]) {
            Some(t) => Some(t),
            None => first_cookie_token(pieces.drop_first()),
        }
    }
}

/// The session token of a request: from an `Authorization: Bearer ...`
/// header (trimmed) when there is one, else from the `session_token`
/// cookie of the `Cookie` header.
pub open spec fn extract_token_spec(authorization: Option<Seq<char>>, cookie: Option<Seq<char>>) -> Option<Seq<char>> {
    if authorization is Some && seq_starts_with(authorization->0, "Bearer "@) {
        Some(trim_spec(authorization->0.skip("Bearer "@.len() as int)))
    } else {
        match cookie {
            Some(c) => first_cookie_token(split_char(c, ';')),
            None => None,
        }
    }
}

pub open spec fn opt_str_view(s: Option<&str>) -> Option<Seq<char>> {
    match s {
        Some(x) => Some(x@),
        None => None,
    }
}

/// The pieces of `s` between the separators.
pub fn split_on(s: &str, sep: char) -> (r: Vec<String>)
    ensures
        strings_view(r@) == split_char(s@, sep),
{
    let v = chars_of(s);
    let mut done: Vec<String> = Vec::new();
    let mut cur: Vec<char> = Vec::new();
    let mut i: usize = 0;
    assert(v@.take(0) =~= Seq::<char>::empty());
    assert(strings_view(done@).push(cur@) =~= split_char(v@.take(0), sep));
    while i < v.len()
        invariant
            i <= v.len(),
            v@ == s@,
            strings_view(done@).push(cur@) == split_char(v@.take(i as int), sep),
        decreases v.len() - i,
    {
        assert(v@.take(i + 1).drop_last() =~= v@.take(i as int));
        assert(v@.take(i + 1).last() == v@[i as int]);
        let ghost prev = split_char(v@.take(i as int), sep);
        if v[i] == sep {
            let piece = string_of(&cur);
            done.push(piece);
            cur = Vec::new();
            assert(strings_view(done@).push(cur@) =~= prev.push(Seq::empty()));
        } else {
            cur.push(v[i]);
            assert(strings_view(done@).push(cur@) =~= prev.update(prev.len() - 1, prev.last().push(v@[i as int])));
        }
        i = i + 1;
    }
    assert(v@.take(v.len() as int) =~= v@);
    done.push(string_of(&cur));
    done
}

fn piece_token(piece: &str) -> (r: Option<String>)
    ensures
        match r {
            Some(t) => cookie_piece_token(piece@) == Some(t@),
            None => cookie_piece_token(piece@) is None,
        },
{
    let t = trim(piece);
    let v = chars_of(t.as_str());
    let mut j: usize = 0;
    while j < v.len() && v[j] != '='
        invariant
            j <= v.len(),
            forall|k: int| 0 <= k < j ==> v@[k] != '=',
        decreases v.len() - j,
    {
        j = j + 1;
    }
    if j == v.len() {
        assert(!exists|k: int| 0 <= k < v@.len() && v@[k] == '=');
        return None;
    }
    assert(v@[j as int] == '=');
    let ghost jj = choose|k: int| 0 <= k < v@.len() && v@[k] == '=' && forall|m: int| 0 <= m < k ==> v@[m] != '=';
    assert(jj == j) by {
        if jj < j {
            assert(v@[jj] != '=');
        }
        if jj > j {
            assert(v@[j as int] != '=');
        }
    }
    let key = string_of(&slice_chars(&v, 0, j));
    assert(v@.subrange(0, j as int) =~= v@.take(j as int));
    if str_eq(key.as_str(), "session_token") {
        let val = string_of(&slice_chars(&v, j + 1, v.len()));
        assert(v@.subrange(j + 1, v.len() as int) =~= v@.skip(j + 1));
        Some(val)
    } else {
        None
    }
}

/// The session token a request carries, from its `Authorization` and
/// `Cookie` headers (as text; `None` when absent or unreadable).
pub fn extract_token(authorization: Option<&str>, cookie: Option<&str>) -> (r: Option<String>)
    ensures
        match r {
            Some(t) => extract_token_spec(opt_str_view(authorization), opt_str_view(cookie)) == Some(t@),
            None => extract_token_spec(opt_str_view(authorization), opt_str_view(cookie)) is None,
        },
{
    if let Some(auth) = authorization {
        if starts_with(auth, "Bearer ") {
            let v = chars_of(auth);
            proof {
                reveal_strlit("Bearer ");
            }
            let rest = string_of(&slice_chars(&v, 7, v.len()));
            assert(v@.subrange(7, v.len() as int) =~= auth@.skip("Bearer "@.len() as int));
            return Some(trim(rest.as_str()));
        }
    }
    match cookie {
        Some(c) => {
            let pieces = split_on(c, ';');
            let ghost ps = strings_view(pieces@);
            let mut i: usize = 0;
            assert(ps.skip(0) =~= ps);
            assert(extract_token_spec(opt_str_view(authorization), opt_str_view(cookie)) == first_cookie_token(ps));
            while i < pieces.len()
                invariant
                    i <= pieces.len(),
                    ps == strings_view(pieces@),
                    extract_token_spec(opt_str_view(authorization), opt_str_view(cookie)) == first_cookie_token(ps),
                    first_cookie_token(ps) == first_cookie_token(ps.skip(i as int)),
                decreases pieces.len() - i,
            {
                assert(ps.skip(i as int).drop_first() =~= ps.skip(i + 1));
                assert(ps.skip(i as int)[0] == pieces@[i as int]@);
                match piece_token(pieces[i].as_str()) {
                    Some(t) => {
                        return Some(t);
                    },
                    None => {},
                }
                i = i + 1;
            }
            None
        },
        None => None,
    }
}

/// The cookie that keeps a dashboard session for a day.
pub fn session_cookie(token: &str) -> (r: String)
    ensures
        r@ == "session_token="@ + token@ + "; Path=/; HttpOnly; SameSite=Lax; Max-Age=86400"@,
{
    concat(concat("session_token=", token).as_str(), "; Path=/; HttpOnly; SameSite=Lax; Max-Age=86400")
}

/// The cookie that ends a dashboard session.
pub fn logout_cookie() -> (r: String)
    ensures
        r@ == "session_token=; Path=/; HttpOnly; Max-Age=0"@,
{
    "session_token=; Path=/; HttpOnly; Max-Age=0".to_owned()
}

/// A text without the separator is a single piece.
proof fn lemma_split_without_separator(s: Seq<char>, sep: char)
    requires
        !s.contains(sep),
    ensures
        split_char(s, sep) == seq![s],
    decreases s.len(),
{
    if s.len() > 0 {
        assert(!s.drop_last().contains(sep)) by {
            if s.drop_last().contains(sep) {
                let k = choose|k: int| 0 <= k < s.drop_last().len() && s.drop_last()[k] == sep;
                assert(s[k] == sep);
            }
        }
        lemma_split_without_separator(s.drop_last(), sep);
        assert(s[s.len() - 1] != sep);
        assert(s.drop_last().push(s.last()) =~= s);
        assert(seq![s.drop_last()].update(0, s.drop_last().push(s.last())) =~= seq![s]);
    } else {
        assert(s =~= Seq::<char>::empty());
    }
}

/// The session cookie a browser sends back after login, or the token as
/// a bearer credential, gives back the token of the session (a token
/// without `;` and without surrounding whitespace, as session tokens are).
pub proof fn law_session_token_read_back(t: Seq<char>)
    requires
        !t.contains(';'),
        trim_spec("session_token="@ + t) == "session_token="@ + t,
        trim_spec(t) == t,
    ensures
        extract_token_spec(None, Some("session_token="@ + t)) == Some(t),
        extract_token_spec(Some("Bearer "@ + t), None) == Some(t),
{
    reveal_strlit("session_token=");
    reveal_strlit("session_token");
    reveal_strlit("Bearer ");
    let c = "session_token="@ + t;
    assert(!c.contains(';')) by {
        if c.contains(';') {
            let k = choose|k: int| 0 <= k < c.len() && c[k] == ';';
            if k >= 14 {
                assert(t[k - 14] == ';');
            }
        }
    }
    lemma_split_without_separator(c, ';');
    assert(c[13] == '=');
    let j = choose|j: int| 0 <= j < c.len() && c[j] == '=' && forall|k: int| 0 <= k < j ==> c[k] != '=';
    assert(j == 13) by {
        if j < 13 {
            assert(c[j] == "session_token"@[j]);
        }
        if j > 13 {
            assert(c[13] != '=');
        }
    }
    assert(c.take(13) =~= "session_token"@);
    assert(c.skip(14) =~= t);
    assert(seq![c].drop_first() =~= Seq::<Seq<char>>::empty());
    assert(("Bearer "@ + t).skip(7) =~= t);
    assert(seq_starts_with("Bearer "@ + t, "Bearer "@)) by {
        assert(("Bearer "@ + t).take(7) =~= "Bearer "@);
    }
}

// ---------------------------------------------------------------------------
// Sessions
// ---------------------------------------------------------------------------

pub open spec fn trunc_rem(a: int, d: int) -> int {
    if a >= 0 {
        a % d
    } else {
        -((-a) % d)
    }
}

/// A session token made of the creation time: `tok_`, the nanoseconds
/// since the epoch, `_`, the microseconds modulo one million (remainder
/// truncated toward zero), both in lower-case hexadecimal of their
/// two's-complement bits.
pub open spec fn session_token_spec(nanos: i64, micros: i64) -> Seq<char> {
    "tok_"@ + lower_hex((nanos as u64) as nat) + "_"@ + lower_hex(
        ((trunc_rem(micros as int, 1_000_000) as i64) as u64) as nat,
    )
}

/// The token of a session created at the given time.
pub fn session_token(nanos: i64, micros: i64) -> (r: String)
    ensures
        r@ == session_token_spec(nanos, micros),
{
    let rem: i64 = if micros >= 0 {
        micros % 1_000_000
    } else {
        let m: i128 = -(micros as i128);
        -((m % 1_000_000) as i64)
    };
    let a = concat("tok_", i64_to_lower_hex(nanos).as_str());
    let b = concat(a.as_str(), "_");
    concat(b.as_str(), i64_to_lower_hex(rem).as_str())
}

/// The end, in seconds since the epoch, of a session that lasts
/// `duration_hours` from `now`; `None` when the duration or the end does
/// not fit in 64 bits.
pub open spec fn session_expiry_spec(now: Instant, duration_hours: int) -> Option<int> {
    let d = duration_hours * 3600;
    let secs = now.secs + d;
    if i64::MIN <= d <= i64::MAX && i64::MIN <= secs <= i64::MAX {
        Some(secs)
    } else {
        None
    }
}

/// The creation and expiry times, as stored, of a session that starts at
/// `now` and lasts `duration_hours`; `None` when either cannot be
/// represented.
pub fn session_times(now: &Instant, duration_hours: i64) -> (r: Option<(String, String)>)
    ensures
        match r {
            Some((created, expires)) => {
                &&& rfc3339_text(now.secs, now.nanos) == Some(created@)
                &&& session_expiry_spec(*now, duration_hours as int) matches Some(e)
                &&& rfc3339_text(e as i64, now.nanos) == Some(expires@)
            },
            None => {
                ||| rfc3339_text(now.secs, now.nanos) is None
                ||| session_expiry_spec(*now, duration_hours as int) is None
                ||| rfc3339_text(session_expiry_spec(*now, duration_hours as int)->0 as i64, now.nanos) is None
            },
        },
{
    let created = format_rfc3339(now);
    let delta: Option<i64> = duration_hours.checked_mul(3600);
    let secs: Option<i64> = match delta {
        Some(d) => now.secs.checked_add(d),
        None => None,
    };
    match (created, secs) {
        (Some(c), Some(s)) => {
            let end = Instant { secs: s, nanos: now.nanos };
            match format_rfc3339(&end) {
                Some(e) => Some((c, e)),
                None => None,
            }
        },
        _ => None,
    }
}

// ---------------------------------------------------------------------------
// Administrators
// ---------------------------------------------------------------------------

/// Credentials are valid when they match the stored administrator of that
/// name; a name that is not stored is checked against the configured
/// administrator.
pub open spec fn credentials_valid_spec(
    stored_password: Option<Seq<char>>,
    username: Seq<char>,
    password: Seq<char>,
    config_username: Seq<char>,
    config_password: Seq<char>,
) -> bool {
    match stored_password {
        Some(p) => p == password,
        None => username == config_username && password == config_password,
    }
}

pub open spec fn opt_string_view(s: Option<String>) -> Option<Seq<char>> {
    match s {
        Some(x) => Some(x@),
        None => None,
    }
}

/// Checks a login.
pub fn credentials_valid(
    stored_password: &Option<String>,
    username: &str,
    password: &str,
    config_username: &str,
    config_password: &str,
) -> (b: bool)
    ensures
        b == credentials_valid_spec(
            opt_string_view(*stored_password),
            username@,
            password@,
            config_username@,
            config_password@,
        ),
{
    match stored_password {
        Some(p) => str_eq(p.as_str(), password),
        None => str_eq(username, config_username) && str_eq(password, config_password),
    }
}

pub const ADMIN_NOT_FOUND: &'static str = "Administrador não encontrado.";

pub const ADMIN_IS_SELF: &'static str = "Você não pode excluir o seu próprio usuário enquanto estiver logado.";

pub const ADMIN_IS_LAST: &'static str = "Não é possível excluir o único administrador do sistema.";

/// An administrator may be deleted when it exists, is not the one logged
/// in (names compared without case) and is not the only one.
pub open spec fn admin_deletion_spec(
    target: Option<Seq<char>>,
    current_user: Seq<char>,
    admin_count: i64,
) -> Result<(), Seq<char>> {
    match target {
        None => Err(ADMIN_NOT_FOUND@),
        Some(t) => if unicode_lowercase(t) == unicode_lowercase(current_user) {
            Err(ADMIN_IS_SELF@)
        } else if admin_count <= 1 {
            Err(ADMIN_IS_LAST@)
        } else {
            Ok(())
        },
    }
}

pub open spec fn result_view(r: Result<(), String>) -> Result<(), Seq<char>> {
    match r {
        Ok(()) => Ok(()),
        Err(e) => Err(e@),
    }
}

/// Checks the deletion of an administrator, given its stored name (`None`
/// when no administrator has that id), the logged-in user and the number
/// of administrators.
pub fn check_admin_deletion(target: &Option<String>, current_user: &str, admin_count: i64) -> (r: Result<(), String>)
    ensures
        result_view(r) == admin_deletion_spec(opt_string_view(*target), current_user@, admin_count),
{
    match target {
        None => Err(ADMIN_NOT_FOUND.to_owned()),
        Some(t) => {
            if str_eq(to_lowercase(t.as_str()).as_str(), to_lowercase(current_user).as_str()) {
                Err(ADMIN_IS_SELF.to_owned())
            } else if admin_count <= 1 {
                Err(ADMIN_IS_LAST.to_owned())
            } else {
                Ok(())
            }
        },
    }
}

/// Deleting an administrator never removes the logged-in user, nor the
/// last administrator.
pub proof fn law_admin_deletion_is_safe(target: Option<Seq<char>>, current_user: Seq<char>, admin_count: i64)
    requires
        admin_deletion_spec(target, current_user, admin_count) is Ok,
    ensures
        target is Some,
        unicode_lowercase(target->0) != unicode_lowercase(current_user),
        admin_count >= 2,
{
}

pub const MISSING_CREDENTIALS: &'static str = "Usuário e senha são obrigatórios.";

pub const EMPTY_PASSWORD: &'static str = "Nova senha não pode ser vazia.";

/// A new administrator needs a name and a password that are not blank;
/// both are stored trimmed.
pub open spec fn new_admin_spec(username: Seq<char>, password: Seq<char>) -> Result<(Seq<char>, Seq<char>), Seq<char>> {
    if trim_spec(username).len() == 0 || trim_spec(password).len() == 0 {
        Err(MISSING_CREDENTIALS@)
    } else {
        Ok((trim_spec(username), trim_spec(password)))
    }
}

/// Validates the name and password of a new administrator.
pub fn validate_new_admin(username: &str, password: &str) -> (r: Result<(String, String), String>)
    ensures
        match r {
            Ok((u, p)) => new_admin_spec(username@, password@) == Ok::<(Seq<char>, Seq<char>), Seq<char>>((u@, p@)),
            Err(e) => new_admin_spec(username@, password@) == Err::<(Seq<char>, Seq<char>), Seq<char>>(e@),
        },
{
    let u = trim(username);
    let p = trim(password);
    if u.as_str().is_empty() || p.as_str().is_empty() {
        Err(MISSING_CREDENTIALS.to_owned())
    } else {
        Ok((u, p))
    }
}

/// A new password must not be blank; it is stored trimmed.
pub fn validate_new_password(password: &str) -> (r: Result<String, String>)
    ensures
        match r {
            Ok(p) => trim_spec(password@).len() > 0 && p@ == trim_spec(password@),
            Err(e) => trim_spec(password@).len() == 0 && e@ == EMPTY_PASSWORD@,
        },
{
    let p = trim(password);
    if p.as_str().is_empty() {
        Err(EMPTY_PASSWORD.to_owned())
    } else {
        Ok(p)
    }
}

} // verus!
