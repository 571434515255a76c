//! Authentication commands: login, registration, token refresh.
//!
//! These are dispatcher specializations: they run against the shared handle
//! like any command, additionally consult the token service (issuing one
//! access and one refresh token on success), and map both an absent account
//! and a wrong password to the same opaque `CredentialError`, so a caller
//! cannot tell the two apart and enumerate accounts.
use vstd::prelude::*;

use crate::error::AppError;
use crate::models::AuthPayload;
use crate::models::Credentials;
use crate::models::UserForm;
use crate::params::PostParams;
use crate::response::IpcResponse;
use crate::state::AppState;
use crate::store::Store;
use crate::token::TokenClass;
use crate::token::issue;
use crate::token::lifetime_secs;
use crate::token::signed_claims;
use crate::token::token_of;
use crate::token::verify_outcome;
use crate::token::verify_token;

verus! {

/// Whether a password, as checked by the hashing scheme, matches a stored
/// hash. The outcome is a function of the two strings alone (a malformed
/// hash matches nothing).
pub uninterp spec fn password_matches(password: Seq<char>, hashed: Seq<char>) -> bool;

#[verifier::external_type_specification]
#[verifier::external_body]
pub struct ExBcryptError(bcrypt::BcryptError);

/// Relies on bcrypt::verify: whether a password matches a bcrypt hash
/// depends on the two strings alone; a malformed hash matches nothing.
#[verifier::external_body]
fn check_password(password: &String, hashed: &String) -> (r: bool)
    ensures
        r == password_matches(password@, hashed@),
{
    bcrypt::verify(password, hashed).unwrap_or(false)
}

/// Relies on bcrypt::hash with the default cost: a fresh hash verifies
/// against the password it was derived from.
#[verifier::external_body]
fn hash_password(password: &String) -> (r: Result<String, bcrypt::BcryptError>)
    ensures
        r matches Ok(h) ==> password_matches(password@, h@),
{
    bcrypt::hash(password, bcrypt::DEFAULT_COST)
}

/// Copies a byte string.
fn clone_bytes(v: &Vec<u8>) -> (r: Vec<u8>)
    ensures
        r@ == v@,
{
    let mut r: Vec<u8> = Vec::new();
    let mut i: usize = 0;
    while i < v.len()
        invariant
            i <= v@.len(),
            r@ == v@.take(i as int),
        decreases v@.len() - i,
    {
        r.push(v[i]);
        i = i + 1;
        proof {
            assert(r@ =~= v@.take(i as int));
        }
    }
    proof {
        assert(r@ =~= v@);
    }
    r
}

/// Some stored user has this email and the password checks out against that
/// user's stored hash.
pub open spec fn credentials_ok(s: Store, email: Seq<char>, password: Seq<char>) -> bool {
    exists|i: int|
        0 <= i < s.users_v().len() && #[trigger] s.users_v()[i].email == email && password_matches(
            password,
            s.users_v()[i].password_hash,
        )
}

/// The access/refresh pair of `p` was freshly signed for `email` at `now`:
/// each token is the deterministic signature of its claim, non-empty, and
/// decodes back to that claim.
pub open spec fn fresh_token_pair(p: AuthPayload, secret: Seq<u8>, email: Seq<char>, now: int) -> bool {
    &&& p.access_token@ == token_of(secret, email, now, now + lifetime_secs(TokenClass::Access))
    &&& p.access_token@.len() > 0
    &&& signed_claims(secret, p.access_token@) == Some(
        (email, now, now + lifetime_secs(TokenClass::Access)),
    )
    &&& p.refresh_token@ == token_of(secret, email, now, now + lifetime_secs(TokenClass::Refresh))
    &&& p.refresh_token@.len() > 0
    &&& signed_claims(secret, p.refresh_token@) == Some(
        (email, now, now + lifetime_secs(TokenClass::Refresh)),
    )
}

/// What a login attempt guarantees: the store is untouched; success is owed
/// whenever the credentials check out and the token expiries fit a
/// timestamp, and the payload then names a stored user whose email and
/// password both check out, with a fresh token pair for that email; on
/// failure the error is the opaque `CredentialError` exactly when the
/// credentials do not check out (absent account and wrong password are the
/// same error value), and otherwise the expiry-overflow `TokenError`.
pub open spec fn login_post(
    s0: Store,
    secret: Seq<u8>,
    s1: Store,
    r: Result<AuthPayload, AppError>,
    email: Seq<char>,
    password: Seq<char>,
    now: int,
) -> bool {
    &&& s1 == s0
    &&& (credentials_ok(s0, email, password) && now + lifetime_secs(TokenClass::Refresh)
        <= i64::MAX ==> r is Ok)
    &&& (match r {
        Ok(p) => {
            &&& exists|i: int|
                0 <= i < s0.users_v().len() && #[trigger] s0.users_v()[i] == p.user@
            &&& p.user@.email == email
            &&& password_matches(password, p.user@.password_hash)
            &&& fresh_token_pair(p, secret, email, now)
        },
        Err(e) => {
            &&& (e == AppError::CredentialError <==> !credentials_ok(s0, email, password))
            &&& match e {
                AppError::CredentialError => true,
                AppError::TokenError(m) => m@ == "Token lifetime overflow"@ && now + lifetime_secs(
                    TokenClass::Refresh,
                ) > i64::MAX,
                _ => false,
            }
        },
    })
}

fn login_op(store: Store, secret: &Vec<u8>, email: &String, password: &String, now: i64) -> (out: (
    Store,
    Result<AuthPayload, AppError>,
))
    requires
        store.wf(),
    ensures
        login_post(store, secret@, out.0, out.1, email@, password@, now as int),
        out.0.wf(),
{
    let user = match store.find_user_by_email(email) {
        Some(u) => u,
        None => {
            proof {
                assert(!credentials_ok(store, email@, password@));
            }
            return (store, Err(AppError::CredentialError));
        },
    };
    if !check_password(password, &user.password_hash) {
        proof {
            if credentials_ok(store, email@, password@) {
                let j = choose|j: int|
                    0 <= j < store.users_v().len() && #[trigger] store.users_v()[j].email == email@
                        && password_matches(password@, store.users_v()[j].password_hash);
                let i = choose|i: int|
                    0 <= i < store.users_v().len() && #[trigger] store.users_v()[i] == user@;
                if i != j {
                    assert(store.users_v()[i].email == store.users_v()[j].email);
                }
            }
        }
        return (store, Err(AppError::CredentialError));
    }
    let access_token = match issue(secret, &user.email, TokenClass::Access, now) {
        Ok(t) => t,
        Err(e) => {
            proof {
                assert(lifetime_secs(TokenClass::Access) <= lifetime_secs(TokenClass::Refresh));
            }
            return (store, Err(e));
        },
    };
    let refresh_token = match issue(secret, &user.email, TokenClass::Refresh, now) {
        Ok(t) => t,
        Err(e) => {
            return (store, Err(e));
        },
    };
    (store, Ok(AuthPayload { access_token, refresh_token, user }))
}

/// Authenticates a caller: looks the account up by email, checks the
/// password against the stored hash, and on success returns the identity
/// snapshot with a fresh access/refresh token pair.
pub fn login(state: &mut AppState, params: PostParams<Credentials>, now: i64) -> (r: IpcResponse<
    AuthPayload,
>)
    requires
        old(state).wf(),
    ensures
        final(state).wf(),
        final(state).secret == old(state).secret,
        final(state).is_init() == old(state).is_init(),
        !old(state).is_init() ==> *final(state) == *old(state) && r.is_envelope_of(
            Err(AppError::ClientInitError),
        ),
        old(state).is_init() ==> exists|res: Result<AuthPayload, AppError>|
            #[trigger] login_post(
                old(state).store(),
                old(state).secret@,
                final(state).store(),
                res,
                params.data.email@,
                params.data.password@,
                now as int,
            ) && r.is_envelope_of(res),
{
    let secret = clone_bytes(&state.secret);
    let Credentials { email, password } = params.data;
    let op = |store: Store| -> (out: (Store, Result<AuthPayload, AppError>))
        requires
            store.wf(),
        ensures
            login_post(store, secret@, out.0, out.1, email@, password@, now as int),
            out.0.wf(),
        { login_op(store, &secret, &email, &password, now) };
    state.handle_db_operation(op)
}

/// What a registration attempt guarantees: on success the email was free,
/// exactly the new user record was appended, the stored hash matches the
/// chosen password, and the payload carries a fresh access/refresh token
/// pair for the email; on failure nothing was stored and the error names
/// the cause exactly (an already-registered email, an expiry overflow, a
/// hashing failure, or an exhausted id counter). An already-registered
/// email always fails, and when the email is free, the counter has room and
/// the expiries fit, only a hashing failure — the one step that draws on
/// the environment — can stand between the caller and success.
pub open spec fn register_post(
    s0: Store,
    secret: Seq<u8>,
    s1: Store,
    r: Result<AuthPayload, AppError>,
    email: Seq<char>,
    password: Seq<char>,
    now: int,
) -> bool {
    &&& (s0.has_user_email(email) ==> r is Err)
    &&& (!s0.has_user_email(email) && s0.next_id < u64::MAX && now + lifetime_secs(
        TokenClass::Refresh,
    ) <= i64::MAX ==> (r is Ok || (r matches Err(e) && (e matches AppError::Other(m) && m@
        == "Password hashing failed"@))))
    &&& (match r {
        Ok(p) => {
            &&& !s0.has_user_email(email)
            &&& p.user@.email == email
            &&& password_matches(password, p.user@.password_hash)
            &&& s1.users_v() == s0.users_v().push(p.user@)
            &&& s1.states_v() == s0.states_v()
            &&& s1.snippets_v() == s0.snippets_v()
            &&& s1.tags_v() == s0.tags_v()
            &&& fresh_token_pair(p, secret, email, now)
        },
        Err(e) => {
            &&& s1.same_records(&s0)
            &&& match e {
                AppError::QueryError(m) => m@ == "Email is already registered"@
                    && s0.has_user_email(email),
                AppError::TokenError(m) => m@ == "Token lifetime overflow"@ && now + lifetime_secs(
                    TokenClass::Refresh,
                ) > i64::MAX,
                AppError::Other(m) => m@ == "Password hashing failed"@ || (m@
                    == "Identifier space exhausted"@ && !s0.has_user_email(email) && s0.next_id
                    == u64::MAX),
                _ => false,
            }
        },
    })
}

fn register_op(store: Store, secret: &Vec<u8>, email: &String, password: &String, now: i64) -> (out:
    (Store, Result<AuthPayload, AppError>))
    requires
        store.wf(),
    ensures
        register_post(store, secret@, out.0, out.1, email@, password@, now as int),
        out.0.wf(),
{
    let hashed = match hash_password(password) {
        Ok(h) => h,
        Err(_) => {
            return (store, Err(AppError::Other("Password hashing failed".to_owned())));
        },
    };
    let access_token = match issue(secret, email, TokenClass::Access, now) {
        Ok(t) => t,
        Err(e) => {
            proof {
                assert(lifetime_secs(TokenClass::Access) <= lifetime_secs(TokenClass::Refresh));
            }
            return (store, Err(e));
        },
    };
    let refresh_token = match issue(secret, email, TokenClass::Refresh, now) {
        Ok(t) => t,
        Err(e) => {
            return (store, Err(e));
        },
    };
    let mut store = store;
    let user = match store.create_user(email, &hashed) {
        Ok(u) => u,
        Err(e) => {
            return (store, Err(e));
        },
    };
    (store, Ok(AuthPayload { access_token, refresh_token, user }))
}

/// Registers a new account: hashes the password, issues the token pair,
/// and stores the new user record (the account name is not persisted by the
/// backend's user records).
pub fn register(state: &mut AppState, params: PostParams<UserForm>, now: i64) -> (r: IpcResponse<
    AuthPayload,
>)
    requires
        old(state).wf(),
    ensures
        final(state).wf(),
        final(state).secret == old(state).secret,
        final(state).is_init() == old(state).is_init(),
        !old(state).is_init() ==> *final(state) == *old(state) && r.is_envelope_of(
            Err(AppError::ClientInitError),
        ),
        old(state).is_init() ==> exists|res: Result<AuthPayload, AppError>|
            #[trigger] register_post(
                old(state).store(),
                old(state).secret@,
                final(state).store(),
                res,
                params.data.email@,
                params.data.password@,
                now as int,
            ) && r.is_envelope_of(res),
{
    let secret = clone_bytes(&state.secret);
    let UserForm { name: _name, email, password } = params.data;
    let op = |store: Store| -> (out: (Store, Result<AuthPayload, AppError>))
        requires
            store.wf(),
        ensures
            register_post(store, secret@, out.0, out.1, email@, password@, now as int),
            out.0.wf(),
        { register_op(store, &secret, &email, &password, now) };
    state.handle_db_operation(op)
}

/// What a refresh attempt guarantees: the store is untouched; success is
/// owed whenever the presented token verifies at `now`, its subject is a
/// stored user's email and the fresh expiries fit a timestamp, and the
/// payload then carries that user with a fresh token pair for the same
/// email; on failure the error is a `TokenError` naming the cause when the
/// token did not verify or an expiry overflowed, and the opaque
/// `CredentialError` exactly when the token verified but its subject
/// matches no account.
pub open spec fn refresh_post(
    s0: Store,
    secret: Seq<u8>,
    s1: Store,
    r: Result<AuthPayload, AppError>,
    token: Seq<char>,
    now: int,
) -> bool {
    &&& s1 == s0
    &&& ((verify_outcome(secret, token, now) matches Some(t) && s0.has_user_email(t.0) && now
        + lifetime_secs(TokenClass::Refresh) <= i64::MAX) ==> r is Ok)
    &&& (match r {
        Ok(p) => {
            &&& (verify_outcome(secret, token, now) matches Some(t) && p.user@.email == t.0)
            &&& exists|i: int|
                0 <= i < s0.users_v().len() && #[trigger] s0.users_v()[i] == p.user@
            &&& fresh_token_pair(p, secret, p.user@.email, now)
        },
        Err(e) => {
            &&& (verify_outcome(secret, token, now) is None ==> (e matches AppError::TokenError(m)
                && (m@ == "Invalid token"@ || m@ == "Token expired"@)))
            &&& (verify_outcome(secret, token, now) matches Some(t) ==> (if !s0.has_user_email(t.0) {
                e == AppError::CredentialError
            } else {
                e matches AppError::TokenError(m) && m@ == "Token lifetime overflow"@ && now
                    + lifetime_secs(TokenClass::Refresh) > i64::MAX
            }))
        },
    })
}

fn refresh_op(store: Store, secret: &Vec<u8>, token: &String, now: i64) -> (out: (
    Store,
    Result<AuthPayload, AppError>,
))
    requires
        store.wf(),
    ensures
        refresh_post(store, secret@, out.0, out.1, token@, now as int),
        out.0.wf(),
{
    let claims = match verify_token(secret, token, now) {
        Ok(c) => c,
        Err(e) => {
            return (store, Err(e));
        },
    };
    let user = match store.find_user_by_email(&claims.sub) {
        Some(u) => u,
        None => {
            return (store, Err(AppError::CredentialError));
        },
    };
    let access_token = match issue(secret, &user.email, TokenClass::Access, now) {
        Ok(t) => t,
        Err(e) => {
            proof {
                assert(lifetime_secs(TokenClass::Access) <= lifetime_secs(TokenClass::Refresh));
            }
            return (store, Err(e));
        },
    };
    let refresh_token = match issue(secret, &user.email, TokenClass::Refresh, now) {
        Ok(t) => t,
        Err(e) => {
            return (store, Err(e));
        },
    };
    (store, Ok(AuthPayload { access_token, refresh_token, user }))
}

/// Exchanges a still-valid refresh token for a fresh token pair and the
/// identity snapshot of the token's subject.
pub fn refresh_token(state: &mut AppState, params: PostParams<String>, now: i64) -> (r: IpcResponse<
    AuthPayload,
>)
    requires
        old(state).wf(),
    ensures
        final(state).wf(),
        final(state).secret == old(state).secret,
        final(state).is_init() == old(state).is_init(),
        !old(state).is_init() ==> *final(state) == *old(state) && r.is_envelope_of(
            Err(AppError::ClientInitError),
        ),
        old(state).is_init() ==> exists|res: Result<AuthPayload, AppError>|
            #[trigger] refresh_post(
                old(state).store(),
                old(state).secret@,
                final(state).store(),
                res,
                params.data@,
                now as int,
            ) && r.is_envelope_of(res),
{
    let secret = clone_bytes(&state.secret);
    let token = params.data;
    let op = |store: Store| -> (out: (Store, Result<AuthPayload, AppError>))
        requires
            store.wf(),
        ensures
            refresh_post(store, secret@, out.0, out.1, token@, now as int),
            out.0.wf(),
        { refresh_op(store, &secret, &token, now) };
    state.handle_db_operation(op)
}

/// Law (registration round trip): after a successful registration the given
/// credentials check out against the new store, so by `login_post`'s owed
/// success a login with them — before any later mutation of that account —
/// returns a success envelope whenever the fresh expiries fit a timestamp.
pub proof fn lemma_registered_credentials_authenticate(
    s0: Store,
    secret: Seq<u8>,
    s1: Store,
    r: Result<AuthPayload, AppError>,
    email: Seq<char>,
    password: Seq<char>,
    now: int,
)
    requires
        register_post(s0, secret, s1, r, email, password, now),
        r is Ok,
    ensures
        credentials_ok(s1, email, password),
{
    let p = r->Ok_0;
    let n = s0.users_v().len() as int;
    assert(s1.users_v()[n] == p.user@);
    assert(s1.users_v()[n].email == email && password_matches(
        password,
        s1.users_v()[n].password_hash,
    ));
}

/// Law (non-enumerability): a login that fails because the email is
/// unknown and one that fails because the password is wrong yield the very
/// same error value, hence the same rendered message — the two causes are
/// not distinguishable by a caller.
pub proof fn lemma_login_failures_indistinguishable(
    s0a: Store,
    s0b: Store,
    secret_a: Seq<u8>,
    secret_b: Seq<u8>,
    s1a: Store,
    s1b: Store,
    ra: Result<AuthPayload, AppError>,
    rb: Result<AuthPayload, AppError>,
    email_a: Seq<char>,
    email_b: Seq<char>,
    pw_a: Seq<char>,
    pw_b: Seq<char>,
    now_a: int,
    now_b: int,
)
    requires
        s0b.wf(),
        login_post(s0a, secret_a, s1a, ra, email_a, pw_a, now_a),
        login_post(s0b, secret_b, s1b, rb, email_b, pw_b, now_b),
        // the first login fails because no account has the email
        !s0a.has_user_email(email_a),
        // the second fails because the stored hash rejects the password
        exists|i: int|
            0 <= i < s0b.users_v().len() && #[trigger] s0b.users_v()[i].email == email_b
                && !password_matches(pw_b, s0b.users_v()[i].password_hash),
    ensures
        ra == Err::<AuthPayload, AppError>(AppError::CredentialError),
        rb == Err::<AuthPayload, AppError>(AppError::CredentialError),
        ra->Err_0.message_spec() == rb->Err_0.message_spec(),
{
    if credentials_ok(s0a, email_a, pw_a) {
        let i = choose|i: int|
            0 <= i < s0a.users_v().len() && #[trigger] s0a.users_v()[i].email == email_a
                && password_matches(pw_a, s0a.users_v()[i].password_hash);
        assert(s0a.has_user_email(email_a));
    }
    if ra is Ok {
        let p = ra->Ok_0;
        let i = choose|i: int| 0 <= i < s0a.users_v().len() && #[trigger] s0a.users_v()[i] == p.user@;
        assert(s0a.has_user_email(email_a));
    }
    let w = choose|i: int|
        0 <= i < s0b.users_v().len() && #[trigger] s0b.users_v()[i].email == email_b
            && !password_matches(pw_b, s0b.users_v()[i].password_hash);
    if credentials_ok(s0b, email_b, pw_b) {
        let j = choose|j: int|
            0 <= j < s0b.users_v().len() && #[trigger] s0b.users_v()[j].email == email_b
                && password_matches(pw_b, s0b.users_v()[j].password_hash);
        if w != j {
            assert(s0b.users_v()[w].email == s0b.users_v()[j].email);
        }
    }
    if rb is Ok {
        let p = rb->Ok_0;
        let j = choose|j: int| 0 <= j < s0b.users_v().len() && #[trigger] s0b.users_v()[j] == p.user@;
        if w != j {
            assert(s0b.users_v()[w].email == s0b.users_v()[j].email);
        }
    }
}

} // verus!
