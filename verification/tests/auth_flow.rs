use snippet_vault::auth::login;
use snippet_vault::auth::refresh_token;
use snippet_vault::auth::register;
use snippet_vault::models::AuthPayload;
use snippet_vault::models::Credentials;
use snippet_vault::models::UserForm;
use snippet_vault::params::PostParams;
use snippet_vault::response::IpcResponse;
use snippet_vault::response::IpcStatus;
use snippet_vault::response::Response;
use snippet_vault::state::AppState;
use snippet_vault::store::Store;
use snippet_vault::token::REFRESH_TOKEN_EXPIRATION_HOURS;

fn fresh_state() -> AppState {
    AppState::new(Store::new(), b"test-signing-secret".to_vec())
}

fn success_payload(r: IpcResponse<AuthPayload>) -> AuthPayload {
    assert!(matches!(r.status, IpcStatus::Success));
    match r.response {
        Response::Success { result } => result.data,
        Response::Error { error } => panic!("expected success, got error: {}", error.message),
    }
}

fn error_message<T>(r: IpcResponse<T>) -> String {
    assert!(matches!(r.status, IpcStatus::Error));
    match r.response {
        Response::Success { .. } => panic!("expected an error envelope"),
        Response::Error { error } => error.message,
    }
}

fn register_ann(state: &mut AppState, now: i64) -> AuthPayload {
    let params = PostParams {
        data: UserForm {
            name: "Ann".to_owned(),
            email: "a@x.com".to_owned(),
            password: "pw".to_owned(),
        },
    };
    success_payload(register(state, params, now))
}

fn login_with(state: &mut AppState, email: &str, password: &str, now: i64) -> IpcResponse<
    AuthPayload,
> {
    let params = PostParams {
        data: Credentials { email: email.to_owned(), password: password.to_owned() },
    };
    login(state, params, now)
}

#[test]
fn register_then_login_round_trip() {
    let mut state = fresh_state();
    let now: i64 = 1_700_000_000;

    let payload = register_ann(&mut state, now);
    assert_eq!(payload.user.email, "a@x.com");
    assert!(!payload.access_token.is_empty());
    assert!(!payload.refresh_token.is_empty());

    let ok = success_payload(login_with(&mut state, "a@x.com", "pw", now + 10));
    assert_eq!(ok.user.email, "a@x.com");
    assert!(!ok.access_token.is_empty());
    assert!(!ok.refresh_token.is_empty());
}

#[test]
fn wrong_password_and_unknown_email_are_indistinguishable() {
    let mut state = fresh_state();
    let now: i64 = 1_700_000_000;
    register_ann(&mut state, now);

    let wrong_password = error_message(login_with(&mut state, "a@x.com", "wrong", now));
    let unknown_email = error_message(login_with(&mut state, "missing@x.com", "pw", now));
    assert_eq!(wrong_password, unknown_email);
    assert_eq!(wrong_password, "Invalid credentials");
}

#[test]
fn duplicate_registration_is_rejected() {
    let mut state = fresh_state();
    let now: i64 = 1_700_000_000;
    register_ann(&mut state, now);

    let params = PostParams {
        data: UserForm {
            name: "Ann Again".to_owned(),
            email: "a@x.com".to_owned(),
            password: "pw2".to_owned(),
        },
    };
    let msg = error_message(register(&mut state, params, now + 5));
    assert_eq!(msg, "Email is already registered");
}

#[test]
fn refresh_with_valid_token_rotates_the_pair() {
    let mut state = fresh_state();
    let now: i64 = 1_700_000_000;
    let payload = register_ann(&mut state, now);

    let later = now + 3600;
    let refreshed = success_payload(refresh_token(
        &mut state,
        PostParams { data: payload.refresh_token },
        later,
    ));
    assert_eq!(refreshed.user.email, "a@x.com");
    assert!(!refreshed.access_token.is_empty());
    assert!(!refreshed.refresh_token.is_empty());
}

#[test]
fn refresh_with_expired_token_yields_a_token_error_envelope() {
    let mut state = fresh_state();
    let now: i64 = 1_700_000_000;
    let payload = register_ann(&mut state, now);

    let past_expiry = now + REFRESH_TOKEN_EXPIRATION_HOURS * 3600 + 1;
    let msg = error_message(refresh_token(
        &mut state,
        PostParams { data: payload.refresh_token },
        past_expiry,
    ));
    assert_eq!(msg, "Token expired");
}

#[test]
fn refresh_with_garbage_token_yields_a_token_error_envelope() {
    let mut state = fresh_state();
    let now: i64 = 1_700_000_000;
    let msg = error_message(refresh_token(
        &mut state,
        PostParams { data: "definitely.not.a.token".to_owned() },
        now,
    ));
    assert_eq!(msg, "Invalid token");
}
