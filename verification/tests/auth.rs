use orbit::auth::{authorize, parse_bearer, resolve, user_or_unknown, Requirement, Session, SessionStore};
use orbit::error::JsonError;
use orbit::models::{Role, User};

fn user_with_roles(id: i64, roles: Vec<Role>) -> User {
    User {
        id,
        twitch_id: 123,
        username: "xiBread_".to_string(),
        avatar_url: "https://placehold.co/300".to_string(),
        roles,
        badge_url: None,
        color_id: None,
        channel_set_id: 1,
    }
}

fn store_with(token: &str, user_id: i64) -> SessionStore {
    let mut store = SessionStore::new();
    let added = store.insert(Session {
        token: token.to_string(),
        user_id,
        expires_at: 1_700_000_000_000,
    });
    assert!(added);
    store
}

#[test]
fn resolve_known_token() {
    let store = store_with("abc123", 42);
    assert_eq!(resolve(&store, Some("Bearer abc123")), Ok(42));
}

#[test]
fn resolve_unknown_token_is_invalid() {
    let store = store_with("abc123", 42);
    assert_eq!(resolve(&store, Some("Bearer wrong")), Err(JsonError::InvalidToken));
}

#[test]
fn resolve_without_scheme_is_unauthorized() {
    let store = store_with("abc123", 42);
    assert_eq!(resolve(&store, Some("abc123")), Err(JsonError::Unauthorized));
}

#[test]
fn resolve_rejects_malformed_headers() {
    let store = store_with("abc123", 42);
    // No Authorization header at all: missing credentials.
    assert_eq!(resolve(&store, None), Err(JsonError::Unauthorized));
    assert_eq!(resolve(&store, Some("")), Err(JsonError::Unauthorized));
    // No space after the scheme name: no credentials.
    assert_eq!(resolve(&store, Some("Bearer")), Err(JsonError::Unauthorized));
    assert_eq!(resolve(&store, Some("Bearerabc123")), Err(JsonError::Unauthorized));
    // The scheme is case-sensitive.
    assert_eq!(resolve(&store, Some("bearer abc123")), Err(JsonError::Unauthorized));
    assert_eq!(resolve(&store, Some("BEARER abc123")), Err(JsonError::Unauthorized));
    // Only visible-ASCII header values reach the resolver.
    assert_eq!(resolve(&store, Some("B\u{e9}arer abc123")), Err(JsonError::Unauthorized));
}

#[test]
fn resolve_token_is_exact() {
    let store = store_with("abc123", 42);
    // The token is everything after the prefix, byte for byte.
    assert_eq!(resolve(&store, Some("Bearer abc123 ")), Err(JsonError::InvalidToken));
    assert_eq!(resolve(&store, Some("Bearer  abc123")), Err(JsonError::InvalidToken));
    assert_eq!(resolve(&store, Some("Bearer ABC123")), Err(JsonError::InvalidToken));
}

#[test]
fn parse_bearer_strips_prefix() {
    assert_eq!(parse_bearer("Bearer abc123"), Ok("abc123".to_string()));
    assert_eq!(parse_bearer("Bearer "), Ok(String::new()));
    assert_eq!(parse_bearer("token"), Err(JsonError::Unauthorized));
}

#[test]
fn store_lookup_and_duplicates() {
    let mut store = store_with("abc123", 42);
    assert_eq!(store.lookup("abc123"), Some(42));
    assert_eq!(store.lookup("other"), None);
    assert!(store.contains_token("abc123"));
    assert!(!store.contains_token("other"));
    // Tokens are primary keys: a second session under the same token is
    // refused and the original binding stays.
    let added = store.insert(Session {
        token: "abc123".to_string(),
        user_id: 77,
        expires_at: 0,
    });
    assert!(!added);
    assert_eq!(store.lookup("abc123"), Some(42));
    // A distinct token is accepted.
    assert!(store.insert(Session {
        token: "xyz".to_string(),
        user_id: 77,
        expires_at: 0,
    }));
    assert_eq!(store.lookup("xyz"), Some(77));
    assert_eq!(store.lookup("abc123"), Some(42));
}

#[test]
fn admin_only_for_each_single_role() {
    let all = [
        Role::Verified,
        Role::Subscriber,
        Role::Founder,
        Role::Contributor,
        Role::Maintainer,
        Role::Moderator,
        Role::Admin,
    ];
    for role in all {
        let user = user_with_roles(7, vec![role]);
        let r = authorize(&user, Requirement::AdminOnly);
        if role == Role::Admin {
            assert_eq!(r, Ok(()));
        } else {
            assert_eq!(r, Err(JsonError::Forbidden));
        }
    }
}

#[test]
fn admin_only_for_role_combinations() {
    let user = user_with_roles(7, vec![Role::Verified, Role::Moderator]);
    assert_eq!(authorize(&user, Requirement::AdminOnly), Err(JsonError::Forbidden));
    let user = user_with_roles(7, vec![Role::Moderator, Role::Admin, Role::Verified]);
    assert_eq!(authorize(&user, Requirement::AdminOnly), Ok(()));
    let user = user_with_roles(7, vec![]);
    assert_eq!(authorize(&user, Requirement::AdminOnly), Err(JsonError::Forbidden));
}

#[test]
fn empty_roles_then_admin() {
    // User 7 with no roles is forbidden; the same user as admin passes.
    let user = user_with_roles(7, vec![]);
    assert_eq!(authorize(&user, Requirement::AdminOnly), Err(JsonError::Forbidden));
    let user = user_with_roles(7, vec![Role::Admin]);
    assert_eq!(authorize(&user, Requirement::AdminOnly), Ok(()));
}

#[test]
fn self_or_admin_matrix() {
    let plain = user_with_roles(7, vec![Role::Verified]);
    assert_eq!(authorize(&plain, Requirement::SelfOrAdmin(7)), Ok(()));
    assert_eq!(authorize(&plain, Requirement::SelfOrAdmin(8)), Err(JsonError::Forbidden));
    let admin = user_with_roles(7, vec![Role::Admin]);
    assert_eq!(authorize(&admin, Requirement::SelfOrAdmin(7)), Ok(()));
    assert_eq!(authorize(&admin, Requirement::SelfOrAdmin(8)), Ok(()));
}

#[test]
fn owner_only_has_no_admin_override() {
    let owner = user_with_roles(7, vec![]);
    assert_eq!(authorize(&owner, Requirement::OwnerOnly(7)), Ok(()));
    assert_eq!(authorize(&owner, Requirement::OwnerOnly(8)), Err(JsonError::Forbidden));
    let admin = user_with_roles(7, vec![Role::Admin]);
    assert_eq!(authorize(&admin, Requirement::OwnerOnly(8)), Err(JsonError::Forbidden));
}

#[test]
fn missing_user_row_is_unknown_user() {
    let user = user_with_roles(42, vec![]);
    let found = user_or_unknown(Some(user)).expect("present row resolves");
    assert_eq!(found.id, 42);
    assert_eq!(user_or_unknown(None).unwrap_err(), JsonError::UnknownUser);
}

#[test]
fn resolved_user_is_authorized_end_to_end() {
    // Token bound to user 42, who owns emote set 9.
    let store = store_with("abc123", 42);
    let user_id = resolve(&store, Some("Bearer abc123")).expect("valid session");
    let user = user_with_roles(user_id, vec![Role::Verified]);
    assert_eq!(authorize(&user, Requirement::OwnerOnly(42)), Ok(()));
    assert_eq!(authorize(&user, Requirement::AdminOnly), Err(JsonError::Forbidden));
}
