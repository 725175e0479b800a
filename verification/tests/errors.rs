use echo_auth::error::AuthError;

#[test]
fn failures_map_to_their_status_codes() {
    assert_eq!(AuthError::InvalidToken.status_code(), 401);
    assert_eq!(AuthError::TokenExpired.status_code(), 401);
    assert_eq!(AuthError::Forbidden.status_code(), 403);
    assert_eq!(AuthError::ProviderUnavailable.status_code(), 502);
    assert_eq!(
        AuthError::ProviderRejected { status: 404, body: "x".to_string() }.status_code(),
        502
    );
    assert_eq!(AuthError::NotFound.status_code(), 502);
    assert_eq!(AuthError::PartialSyncFailure { failed: 3 }.status_code(), 500);
    assert_eq!(AuthError::IssueFailed.status_code(), 500);
}
