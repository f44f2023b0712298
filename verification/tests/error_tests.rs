use gh_activity::api::api_url;
use gh_activity::error::{classify_status, ApiError};
use gh_activity::report::{followers_line, public_gists_line};

#[test]
fn status_404_is_not_found() {
    match classify_status(404, "alice") {
        Err(ApiError::NotFound(user)) => assert_eq!(user, "alice"),
        _ => panic!("expected a not-found error"),
    }
}

#[test]
fn not_found_message_names_the_user() {
    let err = classify_status(404, "alice").unwrap_err();
    assert_eq!(err.message(), "Username alice Not Found");
}

#[test]
fn server_error_statuses() {
    assert!(matches!(
        classify_status(500, "alice"),
        Err(ApiError::ServerError)
    ));
    assert!(matches!(
        classify_status(599, "alice"),
        Err(ApiError::ServerError)
    ));
}

#[test]
fn other_statuses_pass_through() {
    assert!(classify_status(200, "alice").is_ok());
    assert!(classify_status(403, "alice").is_ok());
    assert!(classify_status(301, "alice").is_ok());
}

#[test]
fn error_messages() {
    assert_eq!(
        ApiError::InvalidUsername("bad name".to_string()).message(),
        "bad name is an invalid GitHub username"
    );
    assert_eq!(ApiError::MissingToken.message(), "Error fetching TOKEN");
    assert_eq!(ApiError::ServerError.message(), "Server Error");
    assert_eq!(ApiError::DecodeError.message(), "Error decoding response");
    assert_eq!(ApiError::NetworkError.message(), "Network Error");
}

#[test]
fn events_url() {
    assert_eq!(
        api_url("alice", &Some("events".to_string())),
        "https://api.github.com/users/alice/events"
    );
}

#[test]
fn profile_url() {
    assert_eq!(api_url("alice", &None), "https://api.github.com/users/alice");
}

#[test]
fn profile_count_lines() {
    assert_eq!(followers_line("alice", 12), "alice's Followers Number: 12");
    assert_eq!(
        public_gists_line("alice", 0),
        "alice's Public Gists Number: 0"
    );
}
