//! The rules of the web interface that need no HTTP: sessions, login, and how
//! errors are answered.

use crate::state::{Configuration, User};
use crate::time::{Timestamp, NANOS_PER_SEC};
use rand::distributions::Alphanumeric;
use rand::{thread_rng, Rng};
use vstd::prelude::*;
use vstd::string::*;

verus! {

/// Seconds for which the browser keeps the session cookie.
pub const SESSION_MAX_AGE_SECS: u64 = 2_592_000;

/// Characters in a session cookie.
pub const COOKIE_LENGTH: usize = 128;

/// The HTTP status that answers a request without a valid session.
pub const STATUS_UNAUTHORIZED: u16 = 401;

/// The HTTP status that answers any other request that was turned down.
pub const STATUS_BAD_REQUEST: u16 = 400;

/// A session: its cookie and when it was opened.
pub type Session = (String, Timestamp);

/// Whether `c` is an ASCII letter or digit.
pub open spec fn is_alphanumeric(c: char) -> bool {
    ||| 'a' <= c <= 'z'
    ||| 'A' <= c <= 'Z'
    ||| '0' <= c <= '9'
}

/// Whether `text` is made of `len` ASCII letters and digits.
pub open spec fn is_token(text: Seq<char>, len: nat) -> bool {
    &&& text.len() == len
    &&& forall|i: int| 0 <= i < text.len() ==> is_alphanumeric(#[trigger] text[i])
}

/// A text of `len` random characters from `rand`'s thread-local generator, each
/// drawn from `rand::distributions::Alphanumeric`, which gives ASCII letters and
/// digits only. Which ones is left to chance.
#[verifier::external_body]
fn random_alphanumeric(len: usize) -> (text: String)
    ensures
        is_token(text@, len as nat),
{
    thread_rng().sample_iter(&Alphanumeric).take(len).collect()
}

/// Whether a session opened at `opened` is kept when sessions are looked through
/// at `now`: it is, unless it is stamped `SESSION_MAX_AGE_SECS` whole seconds or
/// more after `now`.
pub open spec fn keeps(opened: Timestamp, now: Timestamp) -> bool {
    opened.elapsed_since(now).nanos / NANOS_PER_SEC < SESSION_MAX_AGE_SECS
}

/// The sessions of `sessions` that are kept at `now`, in their order.
pub open spec fn kept(sessions: Seq<Session>, now: Timestamp) -> Seq<Session>
    decreases sessions.len(),
{
    if sessions.len() == 0 {
        Seq::empty()
    } else if keeps(sessions.last().1, now) {
        kept(sessions.drop_last(), now).push(sessions.last())
    } else {
        kept(sessions.drop_last(), now)
    }
}

/// Whether one of `sessions` has the cookie `cookie`.
pub open spec fn has_session(sessions: Seq<Session>, cookie: Option<String>) -> bool {
    cookie matches Some(c) && exists|i: int|
        0 <= i < sessions.len() && (#[trigger] sessions[i]).0@ == c@
}

/// Drops the sessions that are not kept at `now` and says whether `cookie` is the
/// cookie of one that is left.
pub fn authorize(sessions: &mut Vec<Session>, now: Timestamp, cookie: &Option<String>) -> (ok:
    bool)
    ensures
        final(sessions)@ == kept(old(sessions)@, now),
        ok == has_session(final(sessions)@, *cookie),
{
    let mut left: Vec<Session> = Vec::new();
    let mut found = false;
    let mut i: usize = 0;
    while i < sessions.len()
        invariant
            i <= sessions@.len(),
            sessions@ == old(sessions)@,
            left@ == kept(sessions@.take(i as int), now),
            found == has_session(left@, *cookie),
        decreases sessions@.len() - i,
    {
        let ghost before = left@;
        let session = &sessions[i];
        proof {
            let upto = sessions@.take(i + 1);
            assert(upto.drop_last() =~= sessions@.take(i as int));
            assert(upto.last() == sessions@[i as int]);
        }
        if session.1.saturating_since(now).as_secs() < SESSION_MAX_AGE_SECS as u128 {
            let same = match cookie {
                Some(c) => session.0 == *c,
                None => false,
            };
            left.push((session.0.clone(), session.1));
            proof {
                assert(left@.last() == sessions@[i as int]);
                if found {
                    let c = cookie->0;
                    let k = choose|k: int| 0 <= k < before.len() && (#[trigger] before[k]).0@ == c@;
                    assert(left@[k] == before[k]);
                }
                if same {
                    assert(left@[left@.len() - 1].0@ == (cookie->0)@);
                }
                if has_session(left@, *cookie) && !same {
                    let c = cookie->0;
                    let k = choose|k: int| 0 <= k < left@.len() && (#[trigger] left@[k]).0@ == c@;
                    assert(k < before.len());
                    assert(before[k] == left@[k]);
                }
            }
            found = found || same;
        }
        i = i + 1;
    }
    assert(sessions@.take(i as int) =~= sessions@);
    *sessions = left;
    found
}

/// The value of the `Set-Cookie` header that hands `cookie` to the browser.
pub open spec fn session_cookie_text(cookie: Seq<char>) -> Seq<char> {
    "token="@ + cookie + "; HttpOnly; Max-Age=2592000; SameSite=Strict"@
}

/// Opens a session with the cookie `cookie` at `now` and returns the value of the
/// `Set-Cookie` header that hands the cookie to the browser.
pub fn open_session(sessions: &mut Vec<Session>, cookie: String, now: Timestamp) -> (header: String)
    ensures
        final(sessions)@ == old(sessions)@.push((cookie, now)),
        header@ == session_cookie_text(cookie@),
{
    let mut header = String::from_str("token=");
    header.append(cookie.as_str());
    header.append("; HttpOnly; Max-Age=2592000; SameSite=Strict");
    sessions.push((cookie, now));
    header
}

/// Logs `user` in at `now`: if the configuration knows the user, a session with a
/// fresh random cookie of `COOKIE_LENGTH` letters and digits is opened and the
/// value of the `Set-Cookie` header is returned. Anyone else gets nothing, and the
/// sessions stay as they are.
pub fn login(state: &Configuration, sessions: &mut Vec<Session>, user: &User, now: Timestamp) -> (header:
    Option<String>)
    ensures
        header is Some <==> state.knows(user),
        !state.knows(user) ==> final(sessions)@ == old(sessions)@,
        state.knows(user) ==> {
            &&& final(sessions)@.len() == old(sessions)@.len() + 1
            &&& final(sessions)@.drop_last() == old(sessions)@
            &&& final(sessions)@.last().1 == now
            &&& is_token(final(sessions)@.last().0@, COOKIE_LENGTH as nat)
            &&& header matches Some(h)
            &&& h@ == session_cookie_text(final(sessions)@.last().0@)
        },
{
    if state.has_user(user) {
        let cookie = random_alphanumeric(COOKIE_LENGTH);
        let header = open_session(sessions, cookie, now);
        Some(header)
    } else {
        None
    }
}

/// The value of the `Set-Cookie` header that takes the session cookie away.
pub fn logout_cookie() -> (header: &'static str)
    ensures
        header@ == "token=; HttpOnly; Max-Age=0; SameSite=Strict"@,
{
    "token=; HttpOnly; Max-Age=0; SameSite=Strict"
}

/// The answer to a request that was turned down: status and text. A request
/// without a valid session is unauthorized, anything else is a bad request.
pub fn api_error(unauthorized: bool) -> (answer: (u16, &'static str))
    ensures
        unauthorized ==> answer.0 == STATUS_UNAUTHORIZED && answer.1@ == "Unauthorized"@,
        !unauthorized ==> answer.0 == STATUS_BAD_REQUEST && answer.1@ == "Error"@,
{
    if unauthorized {
        (STATUS_UNAUTHORIZED, "Unauthorized")
    } else {
        (STATUS_BAD_REQUEST, "Error")
    }
}

} // verus!
