use snippet_vault::error::AppError;
use snippet_vault::response::IpcResponse;
use snippet_vault::response::IpcStatus;
use snippet_vault::response::Response;

#[test]
fn from_result_ok_populates_only_success() {
    let r: IpcResponse<i64> = IpcResponse::from_result(Ok(42));
    assert!(matches!(r.status, IpcStatus::Success));
    match r.response {
        Response::Success { result } => assert_eq!(result.data, 42),
        Response::Error { .. } => panic!("success result must not produce an error branch"),
    }
}

#[test]
fn from_result_err_populates_only_error() {
    let r: IpcResponse<i64> =
        IpcResponse::from_result(Err(AppError::NotFound("Snippet not found".to_owned())));
    assert!(matches!(r.status, IpcStatus::Error));
    match r.response {
        Response::Success { .. } => panic!("error result must not produce a success branch"),
        Response::Error { error } => assert_eq!(error.message, "Snippet not found"),
    }
}

#[test]
fn equivalent_failures_render_identically() {
    let a = AppError::CredentialError.render();
    let b = AppError::CredentialError.render();
    assert_eq!(a, b);
    assert_eq!(a, "Invalid credentials");
}

#[test]
fn each_error_kind_renders_its_message() {
    assert_eq!(AppError::ClientInitError.render(), "Database client is not initialized");
    assert_eq!(AppError::QueryError("Email is already registered".to_owned()).render(), "Email is already registered");
    assert_eq!(AppError::CredentialError.render(), "Invalid credentials");
    assert_eq!(AppError::TokenError("Invalid token".to_owned()).render(), "Invalid token");
    assert_eq!(AppError::ValidationError("Malformed input".to_owned()).render(), "Malformed input");
    assert_eq!(AppError::NotFound("Tag not found".to_owned()).render(), "Tag not found");
    assert_eq!(AppError::Other("unexpected".to_owned()).render(), "unexpected");
}

#[test]
fn a_bare_message_becomes_the_catch_all_kind() {
    let e: AppError = "Snippet not found".into();
    assert!(matches!(e, AppError::Other(_)));
    assert_eq!(e.render(), "Snippet not found");
}

#[test]
fn validation_error_envelope_carries_its_message() {
    let r: IpcResponse<()> =
        IpcResponse::from_result(Err(AppError::ValidationError("Malformed input".to_owned())));
    assert!(matches!(r.status, IpcStatus::Error));
    match r.response {
        Response::Error { error } => assert_eq!(error.message, "Malformed input"),
        Response::Success { .. } => panic!("expected the error branch"),
    }
}
