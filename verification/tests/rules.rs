use aspen_core::aspen_protocol::client_event::{
    Error, LoginFailed, LoginSuccess, ServerResponse,
};
use aspen_core::command_response::{
    create_community_failed, create_user_failed, read_user_failed, StoreError,
};
use aspen_core::connection::{admission_for, Admission, ConnectionEnd, Incoming};
use aspen_core::fanout::SubscribeCommand;
use aspen_core::handle_request::{
    error_response, login_response, signs_in, SessionContext, UserLookup, REQUEST_SIZE_LIMIT,
};
use aspen_core::ids::{
    AttachmentId, CategoryId, ChannelId, CommunityId, IconId, MessageId, UserId,
};
use aspen_core::login::{
    expires_at, logout_response, password_requirement, refresh_token_is_valid,
    vet_password_change, ChangePasswordResponse, LoginResponse, LogoutResponse,
    OtherServerAuthResponse, PasswordRequirement, TokenRefreshResponse,
    OTHER_SERVER_AUTH_LIFETIME, PASSWORD_MIN_LENGTH, REFRESH_TOKEN_LIFETIME,
    SESSION_TOKEN_LIFETIME,
};
use aspen_core::records::{create_message, AttachmentInput, Icon};

fn version(bits: u128) -> u128 {
    (bits >> 76) & 0xf
}

#[test]
fn fresh_identifiers_are_version_7() {
    assert_eq!(version(CommunityId::new().0), 7);
    assert_eq!(version(UserId::new().0), 7);
    assert_eq!(version(ChannelId::new().0), 7);
    assert_eq!(version(MessageId::new().0), 7);
    assert_eq!(version(CategoryId::new().0), 7);
    assert_eq!(version(AttachmentId::new().0), 7);
    assert_eq!(version(IconId::new().0), 7);
}

#[test]
fn fresh_identifiers_are_uuids_of_now() {
    let earlier = uuid::Uuid::now_v7();
    let id = MessageId::new();
    let later = uuid::Uuid::now_v7();
    let made = uuid::Uuid::from_u128(id.0);
    assert_eq!(made.get_version_num(), 7);
    assert!(earlier < made && made < later);
    assert_ne!(MessageId::new(), MessageId::new());
}

#[test]
fn identifiers_compare_by_their_number() {
    assert_eq!(CommunityId(5), CommunityId(5));
    assert_ne!(CommunityId(5), CommunityId(6));
}

#[test]
fn create_message_returns() {
    let attachment = AttachmentInput {
        mime_type: "text/plain".to_string(),
        file_name: "a.txt".to_string(),
        content: vec![1, 2, 3],
    };
    create_message(UserId(1), ChannelId(2), "hello".to_string(), vec![attachment]);
}

#[test]
fn an_icon_knows_its_id() {
    let icon = Icon { id: IconId(3), data: vec![0], mime_type: "image/png".to_string() };
    assert_eq!(icon.id(), IconId(3));
}

#[test]
fn token_lifetimes() {
    assert_eq!(REFRESH_TOKEN_LIFETIME, 52 * 7 * 24 * 3600 * 1_000_000);
    assert_eq!(SESSION_TOKEN_LIFETIME, 3 * 3600 * 1_000_000);
    assert_eq!(OTHER_SERVER_AUTH_LIFETIME, 10 * 60 * 1_000_000);
    assert_eq!(PASSWORD_MIN_LENGTH, 8);
}

#[test]
fn expiry_is_now_plus_lifetime() {
    assert_eq!(expires_at(1_000, SESSION_TOKEN_LIFETIME), Some(10_800_001_000));
    assert_eq!(expires_at(-5, 5), Some(0));
    assert_eq!(expires_at(i64::MAX, 1), None);
    assert_eq!(expires_at(i64::MAX - 1, 1), Some(i64::MAX));
    assert_eq!(expires_at(i64::MIN, -1), None);
}

#[test]
fn a_refresh_token_is_valid_until_it_expires() {
    assert!(refresh_token_is_valid(Some(100), 99));
    assert!(refresh_token_is_valid(Some(100), 100));
    assert!(!refresh_token_is_valid(Some(100), 101));
    assert!(!refresh_token_is_valid(None, 0));
}

#[test]
fn logout_needs_a_known_token() {
    assert_eq!(logout_response(0), LogoutResponse::InvalidToken);
    assert_eq!(logout_response(1), LogoutResponse::Okay);
    assert_eq!(logout_response(3), LogoutResponse::Okay);
}

#[test]
fn a_password_needs_eight_bytes() {
    assert_eq!(password_requirement(""), Some(PasswordRequirement::Length));
    assert_eq!(password_requirement("1234567"), Some(PasswordRequirement::Length));
    assert_eq!(password_requirement("12345678"), None);
    assert_eq!(password_requirement("äääÃ"), None);
    assert_eq!(password_requirement("äää"), Some(PasswordRequirement::Length));
}

#[test]
fn a_password_change_is_vetted() {
    assert_eq!(
        vet_password_change(false, "long enough password"),
        ChangePasswordResponse::OldPasswordIncorrect
    );
    assert_eq!(vet_password_change(false, "short"), ChangePasswordResponse::OldPasswordIncorrect);
    assert_eq!(
        vet_password_change(true, "short"),
        ChangePasswordResponse::NewPasswordDoesntMeetRequirements {
            cause: PasswordRequirement::Length
        }
    );
    assert_eq!(vet_password_change(true, "12345678"), ChangePasswordResponse::Okay);
}

#[test]
fn status_codes() {
    let ok = LoginResponse::Okay {
        user_id: UserId(1),
        refresh_token: "r".to_string(),
        session_token: "s".to_string(),
        session_token_expires: 5,
    };
    assert_eq!(ok.status_code(), 200);
    assert_eq!(LoginResponse::InvalidCredentials.status_code(), 401);
    assert_eq!(LoginResponse::ServerError.status_code(), 500);
    assert_eq!(
        TokenRefreshResponse::Okay { new_session_token: "t".to_string() }.status_code(),
        200
    );
    assert_eq!(TokenRefreshResponse::InvalidToken.status_code(), 401);
    assert_eq!(TokenRefreshResponse::ServerError.status_code(), 500);
    assert_eq!(LogoutResponse::Okay.status_code(), 200);
    assert_eq!(LogoutResponse::InvalidToken.status_code(), 401);
    assert_eq!(LogoutResponse::ServerError.status_code(), 500);
    assert_eq!(ChangePasswordResponse::Okay.status_code(), 200);
    assert_eq!(ChangePasswordResponse::OldPasswordIncorrect.status_code(), 401);
    assert_eq!(
        ChangePasswordResponse::NewPasswordDoesntMeetRequirements {
            cause: PasswordRequirement::Length
        }
        .status_code(),
        400
    );
    assert_eq!(ChangePasswordResponse::ServerError.status_code(), 500);
    assert_eq!(
        OtherServerAuthResponse::Okay { other_server_auth_token: "t".to_string() }.status_code(),
        200
    );
    assert_eq!(OtherServerAuthResponse::InvalidToken.status_code(), 400);
    assert_eq!(OtherServerAuthResponse::Error.status_code(), 500);
}

#[test]
fn store_failures_are_answered() {
    assert_eq!(
        create_user_failed(StoreError::UniqueViolation),
        (400, aspen_core::command_response::Error {
            cause: Some("usernameAlreadyTaken".to_string())
        })
    );
    assert_eq!(
        create_user_failed(StoreError::Other),
        (500, aspen_core::command_response::Error { cause: None })
    );
    assert_eq!(
        create_user_failed(StoreError::NotFound),
        (500, aspen_core::command_response::Error { cause: None })
    );
    assert_eq!(
        read_user_failed(StoreError::NotFound),
        (404, aspen_core::command_response::Error { cause: None })
    );
    assert_eq!(
        read_user_failed(StoreError::Other),
        (500, aspen_core::command_response::Error { cause: None })
    );
    assert_eq!(
        read_user_failed(StoreError::UniqueViolation),
        (500, aspen_core::command_response::Error { cause: None })
    );
    assert_eq!(
        create_community_failed(),
        (500, aspen_core::command_response::Error { cause: Some("tryAgainLater".to_string()) })
    );
}

#[test]
fn signing_in_subscribes_to_the_users_communities() {
    let mut session = SessionContext::new();
    assert_eq!(session.signed_in_user, None);
    let batch = session.sign_in(UserId(9), &vec![CommunityId(3), CommunityId(1), CommunityId(2)]);
    assert_eq!(session.signed_in_user, Some(UserId(9)));
    assert_eq!(
        batch,
        vec![
            SubscribeCommand { community: CommunityId(3), desire_subscribed: true },
            SubscribeCommand { community: CommunityId(1), desire_subscribed: true },
            SubscribeCommand { community: CommunityId(2), desire_subscribed: true },
        ]
    );
    assert!(session.sign_in(UserId(4), &vec![]).is_empty());
    assert_eq!(session.signed_in_user, Some(UserId(4)));
}

#[test]
fn login_answers() {
    assert_eq!(
        login_response(UserLookup::Found { user_id: UserId(5), password_matches: true }),
        ServerResponse::LoginSuccess(LoginSuccess { user_id: UserId(5) })
    );
    assert_eq!(
        login_response(UserLookup::Found { user_id: UserId(5), password_matches: false }),
        ServerResponse::LoginFailed(LoginFailed {})
    );
    assert_eq!(login_response(UserLookup::NotFound), ServerResponse::LoginFailed(LoginFailed {}));
    assert_eq!(
        login_response(UserLookup::Failed),
        ServerResponse::Error(Error { cause: Some("the server encountered an error".to_string()) })
    );
}

#[test]
fn a_failed_request_names_its_log_entry() {
    assert_eq!(REQUEST_SIZE_LIMIT, 64 * 1024);
    assert_eq!(
        error_response("0190-abc"),
        ServerResponse::Error(Error {
            cause: Some(
                "Error occurred. Error logged for server admin to review. Error ID: 0190-abc"
                    .to_string()
            )
        })
    );
}

#[test]
fn admission_rules() {
    let calm = Incoming { open_connections: 3, blocked: false, validated: false };
    assert_eq!(admission_for(calm, None, false), Admission::Accept);
    assert_eq!(admission_for(calm, Some(4), false), Admission::Accept);
    assert_eq!(admission_for(calm, Some(3), false), Admission::RefuseLimit);
    assert_eq!(admission_for(calm, Some(0), false), Admission::RefuseLimit);
    assert_eq!(admission_for(calm, None, true), Admission::Retry);
    let validated = Incoming { validated: true, ..calm };
    assert_eq!(admission_for(validated, None, true), Admission::Accept);
    let blocked = Incoming { blocked: true, ..validated };
    assert_eq!(admission_for(blocked, None, true), Admission::RefuseBlocked);
    assert_eq!(admission_for(blocked, Some(1), true), Admission::RefuseLimit);
    assert_eq!(
        admission_for(Incoming { blocked: true, ..calm }, None, true),
        Admission::RefuseBlocked
    );
}

#[test]
fn closing_codes_and_reasons() {
    assert_eq!(ConnectionEnd::ClientClosed.close_code(), 0);
    assert_eq!(ConnectionEnd::ClientClosed.close_reason(), "");
    assert_eq!(ConnectionEnd::Lagged.close_code(), 1);
    assert_eq!(
        ConnectionEnd::Lagged.close_reason(),
        "QUIC error connection not keeping up with server events, disconnecting"
    );
    let failed = ConnectionEnd::Failed("timed out".to_string());
    assert_eq!(failed.close_code(), 1);
    assert_eq!(failed.close_reason(), "QUIC error timed out");
}

#[test]
fn only_a_matched_login_signs_in() {
    assert_eq!(
        signs_in(UserLookup::Found { user_id: UserId(5), password_matches: true }),
        Some(UserId(5))
    );
    assert_eq!(signs_in(UserLookup::Found { user_id: UserId(5), password_matches: false }), None);
    assert_eq!(signs_in(UserLookup::NotFound), None);
    assert_eq!(signs_in(UserLookup::Failed), None);
}
