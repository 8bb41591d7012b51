use podkit_server::error::{DomainError, ServerError};
use podkit_server::routes::teams::projects::applications::list::match_servers;
use podkit_server::routes::webhooks::{authorize_webhook, constant_time_eq};
use podkit_server::routes::{conflict_as, dashboard_origins, is_whitespace, require_owner};

#[test]
fn default_dashboard_origins() {
    assert_eq!(
        dashboard_origins("http://localhost:5173,http://localhost:4173"),
        vec!["http://localhost:5173".to_string(), "http://localhost:4173".to_string()]
    );
}

#[test]
fn origins_are_trimmed_and_empty_or_invalid_ones_dropped() {
    assert_eq!(
        dashboard_origins(" https://a.example , ,https://b.example,\u{7f}bad,\t,"),
        vec!["https://a.example".to_string(), "https://b.example".to_string()]
    );
    assert_eq!(dashboard_origins(""), Vec::<String>::new());
    assert_eq!(dashboard_origins("\u{3000}https://c.example\u{a0}"), vec!["https://c.example".to_string()]);
}

#[test]
fn whitespace_matches_char_is_whitespace() {
    for v in 0u32..0x3100 {
        if let Some(c) = char::from_u32(v) {
            assert_eq!(is_whitespace(c), c.is_whitespace(), "code point {v:#x}");
        }
    }
}

#[test]
fn foreign_resource_is_not_found_like_a_missing_one() {
    assert_eq!(require_owner(Some(2), 1, ServerError::ProjectNotFound), Err(ServerError::ProjectNotFound));
    assert_eq!(require_owner(None, 1, ServerError::ProjectNotFound), Err(ServerError::ProjectNotFound));
    assert_eq!(require_owner(Some(1), 1, ServerError::ProjectNotFound), Ok(()));
    assert_eq!(ServerError::ProjectNotFound.status_code(), 404);
}

#[test]
fn conflicts_map_to_taken() {
    assert_eq!(conflict_as(DomainError::AlreadyExists, ServerError::DomainTaken), ServerError::DomainTaken);
    assert_eq!(
        conflict_as(DomainError::Infrastructure("x".to_string()), ServerError::ApplicationSlugTaken),
        ServerError::Domain(DomainError::Infrastructure("x".to_string()))
    );
    assert_eq!(ServerError::DomainTaken.status_code(), 409);
}

#[test]
fn secrets_compare_exactly() {
    assert!(constant_time_eq("s3cr3t", "s3cr3t"));
    assert!(!constant_time_eq("s3cr3t", "s3cr3T"));
    assert!(!constant_time_eq("s3cr3t", "s3cr3"));
    assert!(constant_time_eq("", ""));
    assert!(constant_time_eq("é", "é"));
}

#[test]
fn webhook_needs_the_right_secret() {
    let expected = Some("abc".to_string());
    assert_eq!(authorize_webhook(expected.clone(), Some("abc".to_string()), None), Ok(()));
    assert_eq!(authorize_webhook(expected.clone(), None, Some("abc".to_string())), Ok(()));
    // The header wins over the query parameter.
    assert_eq!(
        authorize_webhook(expected.clone(), Some("nope".to_string()), Some("abc".to_string())),
        Err(ServerError::Forbidden)
    );
    assert_eq!(authorize_webhook(expected, None, None), Err(ServerError::Forbidden));
    assert_eq!(authorize_webhook(None, Some("abc".to_string()), None), Err(ServerError::Forbidden));
}

#[test]
fn applications_find_their_team_server_or_none() {
    let positions = match_servers(&vec![5, 9, 5, 2], &vec![5, 7, 9]);
    assert_eq!(positions, vec![Some(0), Some(2), Some(0), None]);
    assert_eq!(match_servers(&vec![3], &vec![3, 4, 3]), vec![Some(2)]);
    assert_eq!(match_servers(&vec![], &vec![1]), Vec::<Option<usize>>::new());
}
