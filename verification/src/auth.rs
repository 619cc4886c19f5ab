//! Credential storage and the authentication gate.
//!
//! A `CredentialStore` holds the single-use login secret (one-time
//! password), the set of active session tokens, and the static API key the
//! process was configured with.  Every inbound request is judged against
//! this state; a successful login consumes the stored secret and mints a
//! fresh session token.

use vstd::prelude::*;

verus! {

/// Name of the session cookie issued on login.
pub const SESSION_COOKIE_NAME: &'static str = "lnav_session_id";

/// The credential state owned by one server instance.
pub struct CredentialStore {
    /// The one-time password, present until the first login attempt
    /// consumes it.
    pub otp: Option<String>,
    /// Session tokens minted by successful logins; membership is necessary
    /// and sufficient for cookie authorization.
    pub sessions: Vec<String>,
    /// The static API key accepted in a request header; an empty key
    /// disables that credential kind.
    pub api_key: String,
}

/// What a login attempt produced: either a fresh session or a uniform
/// denial (the response never says which check failed).
pub enum LoginOutcome {
    /// Login succeeded: redirect to `target` and set the session cookie.
    Granted {
        /// The newly minted session token.
        session_id: String,
        /// The full `Set-Cookie` header value for the token.
        set_cookie: String,
        /// Where to redirect the client.
        target: String,
    },
    /// Login failed; the caller answers with an authentication-required
    /// status.
    Denied,
}

/// Whether a login attempt against `store` with the supplied query
/// parameter must succeed: a secret is stored and the parameter matches it
/// exactly.
pub open spec fn login_succeeds(store: CredentialStore, otp_param: Option<String>) -> bool {
    &&& store.otp is Some
    &&& otp_param is Some
    &&& store.otp->0@ == otp_param->0@
}

/// The `Set-Cookie` header value issued for session token `id`.
pub open spec fn spec_session_cookie(id: Seq<char>) -> Seq<char> {
    SESSION_COOKIE_NAME@ + "="@ + id + "; Path=/"@
}

impl CredentialStore {
    /// A fresh store with no secret and no sessions.
    pub fn new(api_key: String) -> (r: CredentialStore)
        ensures
            r.otp is None,
            r.sessions@ =~= Seq::<String>::empty(),
            r.api_key@ == api_key@,
    {
        CredentialStore { otp: None, sessions: Vec::new(), api_key }
    }

    /// Whether `token` is an active session token.
    pub open spec fn spec_has_session(&self, token: Seq<char>) -> bool {
        exists|i: int| 0 <= i < self.sessions@.len() && self.sessions@[i]@ == token
    }

    /// Whether a request carrying these credentials is authorized.
    /// A present cookie is decisive: an unknown token is rejected even if
    /// another credential would have matched.  Without a cookie, the static
    /// API key must be configured (non-empty) and matched exactly.
    pub open spec fn spec_authorized(
        &self,
        cookie_session: Option<Seq<char>>,
        api_key_header: Option<Seq<char>>,
    ) -> bool {
        match cookie_session {
            Some(token) => self.spec_has_session(token),
            None => self.api_key@.len() > 0 && api_key_header == Some(self.api_key@),
        }
    }

    /// Membership test for the active-token set.
    pub fn has_session(&self, token: &String) -> (r: bool)
        ensures
            r == self.spec_has_session(token@),
    {
        let mut i: usize = 0;
        while i < self.sessions.len()
            invariant
                0 <= i <= self.sessions@.len(),
                forall|j: int| 0 <= j < i ==> self.sessions@[j]@ != token@,
            decreases self.sessions@.len() - i,
        {
            if self.sessions[i] == *token {
                return true;
            }
            i += 1;
        }
        false
    }

    /// The authentication gate every non-login request passes through.
    pub fn authorize(
        &self,
        cookie_session: Option<&String>,
        api_key_header: Option<&String>,
    ) -> (r: bool)
        ensures
            r == self.spec_authorized(
                match cookie_session {
                    Some(t) => Some(t@),
                    None => None,
                },
                match api_key_header {
                    Some(k) => Some(k@),
                    None => None,
                },
            ),
    {
        match cookie_session {
            Some(token) => self.has_session(token),
            None => {
                if self.api_key.as_str().is_empty() {
                    false
                } else {
                    match api_key_header {
                        Some(supplied) => *supplied == self.api_key,
                        None => false,
                    }
                }
            },
        }
    }
}

/// Stores a fresh one-time password, replacing any unconsumed one.
pub fn set_login_otp(store: &mut CredentialStore, otp: String)
    ensures
        final(store).otp == Some(otp),
        final(store).sessions == old(store).sessions,
        final(store).api_key == old(store).api_key,
{
    store.otp = Some(otp);
}

/// Mints a fresh one-time password — a random token in the 36-character
/// hyphenated rendering — stores it, and returns it so the host can show
/// it to the operator.
pub fn set_one_time_password(store: &mut CredentialStore) -> (r: String)
    ensures
        final(store).otp == Some(r),
        r@.len() == 36,
        final(store).sessions == old(store).sessions,
        final(store).api_key == old(store).api_key,
{
    let retval = fresh_token();
    set_login_otp(store, retval.clone());
    retval
}

/// One login attempt: takes (consumes) the stored secret, compares it with
/// the supplied parameter, and on a match mints and registers a session
/// token.  The secret is consumed whether or not the attempt succeeds, so a
/// guessed-wrong value invalidates the real one.
pub fn do_login(
    store: &mut CredentialStore,
    otp_param: Option<String>,
    target_param: Option<String>,
) -> (outcome: LoginOutcome)
    ensures
        final(store).otp is None,
        final(store).api_key == old(store).api_key,
        outcome is Granted <==> login_succeeds(*old(store), otp_param),
        match outcome {
            LoginOutcome::Granted { session_id, set_cookie, target } => {
                &&& final(store).sessions@ =~= old(store).sessions@.push(session_id)
                &&& final(store).spec_has_session(session_id@)
                &&& session_id@.len() == 36
                &&& set_cookie@ == spec_session_cookie(session_id@)
                &&& target@ == match target_param {
                    Some(t) => t@,
                    None => "/"@,
                }
            },
            LoginOutcome::Denied => final(store).sessions == old(store).sessions,
        },
{
    let expected = store.otp.take();
    let granted: bool = match (&expected, &otp_param) {
        (Some(exp), Some(act)) => *exp == *act,
        _ => false,
    };
    if granted {
        let session_id = fresh_token();
        store.sessions.push(session_id.clone());
        let set_cookie = session_cookie_header(&session_id);
        let target = match target_param {
            Some(t) => t,
            None => String::from_str("/"),
        };
        proof {
            let n = store.sessions@.len() - 1;
            assert(store.sessions@[n]@ == session_id@);
        }
        LoginOutcome::Granted { session_id, set_cookie, target }
    } else {
        LoginOutcome::Denied
    }
}

/// A consumed secret cannot be used again: once the store holds no
/// one-time password, no attempt succeeds, whatever value it carries.
/// `do_login` guarantees the store is in this state after every attempt,
/// successful or not, so a second login with the already-used value, or a
/// correct-value retry after a wrong guess, is denied until the host
/// stores a fresh secret.
pub proof fn lemma_login_consumes_otp(store: CredentialStore, retry: Option<String>)
    requires
        store.otp is None,
    ensures
        !login_succeeds(store, retry),
{
}

/// Unknown cookies are rejected: a request bearing a session token outside
/// the active set is refused even when a valid API key accompanies it.
pub proof fn lemma_unknown_cookie_rejected(
    store: CredentialStore,
    token: Seq<char>,
    api_key_header: Option<Seq<char>>,
)
    requires
        !store.spec_has_session(token),
    ensures
        !store.spec_authorized(Some(token), api_key_header),
{
}

/// Relies on `uuid::Uuid::new_v4` and its `Display` form: a fresh random
/// 128-bit identifier rendered in the 36-character hyphenated format.
/// Nothing is assumed about the value beyond its length: it is random.
#[verifier::external_body]
fn fresh_token() -> (r: String)
    ensures
        r@.len() == 36,
{
    uuid::Uuid::new_v4().to_string()
}

/// Relies on `cookie::Cookie`'s builder and `Display` impl, which renders
/// a cookie with a path as `name=value; Path=/` and does not encode the
/// value (the tokens here are hyphenated hexadecimal, which needs no
/// encoding).
#[verifier::external_body]
fn session_cookie_header(id: &String) -> (r: String)
    ensures
        r@ == spec_session_cookie(id@),
{
    cookie::Cookie::build((SESSION_COOKIE_NAME, id.clone())).path("/").build().to_string()
}

} // verus!
