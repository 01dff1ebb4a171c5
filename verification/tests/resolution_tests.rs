use sdui::content::{Content, ContentField};
use sdui::entrypoint::resolve_sections;
use sdui::errors::{DecodeError, ResolutionError, StorageError};
use sdui::graphql_schema::{Mutation, Query};
use sdui::model::{RawRecord, VisibilityRule};
use sdui::sdui_component::SDUIComponent;
use sdui::users::User;

fn description_record(id: &str, text: &str, visibility: VisibilityRule) -> RawRecord {
    RawRecord {
        id: id.to_string(),
        tag: "SDUIDescriptionComponent".to_string(),
        content: Content {
            fields: vec![ContentField {
                name: "text".to_string(),
                value: text.to_string(),
            }],
        },
        visibility,
    }
}

fn malformed_record(id: &str) -> RawRecord {
    RawRecord {
        id: id.to_string(),
        tag: "SDUICardComponent".to_string(),
        content: Content { fields: vec![] },
        visibility: VisibilityRule::Public,
    }
}

fn anonymous() -> User {
    User::AnonymousUser("anon-1".to_string())
}

fn authorized() -> User {
    User::AuthorizedUser("user-7".to_string())
}

#[test]
fn order_is_preserved() {
    let records = vec![
        description_record("A", "first", VisibilityRule::Public),
        description_record("B", "second", VisibilityRule::Public),
        description_record("C", "third", VisibilityRule::Public),
    ];
    let sections = resolve_sections(&anonymous(), "home", Ok(records)).expect("all records decode");
    let ids: Vec<&str> = sections.iter().map(|s| s.id.as_str()).collect();
    assert_eq!(ids, vec!["A", "B", "C"]);
}

#[test]
fn empty_entrypoint_yields_empty_sequence() {
    let sections = resolve_sections(&anonymous(), "home", Ok(vec![])).expect("no content is valid");
    assert!(sections.is_empty());
}

#[test]
fn malformed_record_fails_the_whole_resolution() {
    let records = vec![
        description_record("A", "first", VisibilityRule::Public),
        malformed_record("B"),
        description_record("C", "third", VisibilityRule::Public),
    ];
    match resolve_sections(&anonymous(), "home", Ok(records)) {
        Err(ResolutionError::Decode(e)) => {
            assert_eq!(e.section_id, "B");
            assert_eq!(
                e.error,
                DecodeError::MissingField {
                    kind_tag: "SDUICardComponent".to_string(),
                    field: "title".to_string(),
                }
            );
        }
        other => panic!("expected a decode failure, got {:?}", other),
    }
}

#[test]
fn visibility_filters_for_anonymous_users() {
    let records = vec![
        description_record("A", "members only", VisibilityRule::AuthorizedOnly),
        description_record("B", "for everyone", VisibilityRule::Public),
    ];
    let sections = resolve_sections(&anonymous(), "home", Ok(records)).expect("B decodes");
    let ids: Vec<&str> = sections.iter().map(|s| s.id.as_str()).collect();
    assert_eq!(ids, vec!["B"]);
}

#[test]
fn visibility_keeps_restricted_records_for_authorized_users() {
    let records = vec![
        description_record("A", "members only", VisibilityRule::AuthorizedOnly),
        description_record("B", "for everyone", VisibilityRule::Public),
    ];
    let sections = resolve_sections(&authorized(), "home", Ok(records)).expect("both decode");
    let ids: Vec<&str> = sections.iter().map(|s| s.id.as_str()).collect();
    assert_eq!(ids, vec!["A", "B"]);
}

#[test]
fn hidden_malformed_record_does_not_fail_resolution() {
    let mut hidden = malformed_record("A");
    hidden.visibility = VisibilityRule::AuthorizedOnly;
    let records = vec![hidden, description_record("B", "ok", VisibilityRule::Public)];
    let sections = resolve_sections(&anonymous(), "home", Ok(records)).expect("A is filtered out");
    let ids: Vec<&str> = sections.iter().map(|s| s.id.as_str()).collect();
    assert_eq!(ids, vec!["B"]);
}

#[test]
fn empty_key_is_invalid() {
    let r = resolve_sections(&anonymous(), "", Ok(vec![]));
    assert!(matches!(r, Err(ResolutionError::InvalidKey)));
}

#[test]
fn storage_failure_is_carried_through() {
    let fetched = Err(StorageError {
        message: "connection refused".to_string(),
    });
    match resolve_sections(&anonymous(), "home", fetched) {
        Err(ResolutionError::Storage(e)) => assert_eq!(e.message, "connection refused"),
        other => panic!("expected a storage failure, got {:?}", other),
    }
}

#[test]
fn query_resolves_entrypoint_sections() {
    let records = vec![description_record("A", "hello", VisibilityRule::Public)];
    let sections =
        Query::mobile_entrypoint_sections(&anonymous(), "home", Ok(records)).expect("A decodes");
    assert_eq!(sections.len(), 1);
    assert_eq!(sections[0].id, "A");
    match &sections[0].component {
        SDUIComponent::SDUIDescriptionComponent(d) => assert_eq!(d.text, "hello"),
        other => panic!("expected a description component, got {:?}", other),
    }
}

#[test]
fn whoami_reports_the_identity_state() {
    let authorized = Query::whoami(&User::AuthorizedUser("u-1".to_string()));
    assert_eq!(authorized.id.as_deref(), Some("u-1"));
    assert_eq!(
        authorized.human_readable_type.as_deref(),
        Some("authorized user")
    );

    let anonymous_user = Query::whoami(&User::AnonymousUser("a-2".to_string()));
    assert_eq!(anonymous_user.id.as_deref(), Some("a-2"));
    assert_eq!(
        anonymous_user.human_readable_type.as_deref(),
        Some("anonymous user")
    );

    let unauthorized = Query::whoami(&User::UnauthorizedUser("x-3".to_string()));
    assert_eq!(unauthorized.id.as_deref(), Some("x-3"));
    assert_eq!(
        unauthorized.human_readable_type.as_deref(),
        Some("unauthorized (but not anonymous) user")
    );
}

#[test]
fn authorize_mobile_wraps_the_issued_token() {
    let granted = Mutation::authorize_mobile(Ok("session-token-1".to_string()));
    assert!(granted.success);
    assert_eq!(granted.session_token.as_deref(), Some("session-token-1"));

    let rejected = Mutation::authorize_mobile(Err("invalid id token".to_string()));
    assert!(!rejected.success);
    assert_eq!(rejected.session_token, None);
}

#[test]
fn deauthorize_mobile_reports_the_outcome() {
    assert!(Mutation::deauthorize_mobile(Ok(())).success);
    assert!(!Mutation::deauthorize_mobile(Err("no such session".to_string())).success);
}
