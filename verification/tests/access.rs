use codexmanager_service::access::{
    key_scope, retain_owned, startup_sections, KeyScope, ScopedListing,
};
use codexmanager_service::actor::RpcActor;

fn strings(items: &[&str]) -> Vec<String> {
    items.iter().map(|s| s.to_string()).collect()
}

#[test]
fn admin_sees_all_keys() {
    let actor = RpcActor::from_parts(Some("admin"), None);
    assert_eq!(key_scope(&actor, ScopedListing::ApiKeys), Ok(KeyScope::All));
}

#[test]
fn member_sees_own_keys() {
    let actor = RpcActor::from_parts(Some("member"), Some(" u-7 "));
    assert_eq!(
        key_scope(&actor, ScopedListing::ApiKeyUsage),
        Ok(KeyScope::OwnedBy("u-7".to_string()))
    );
}

#[test]
fn member_without_session_is_refused() {
    let actor = RpcActor::from_parts(Some("member"), None);
    assert_eq!(
        key_scope(&actor, ScopedListing::ApiKeys),
        Err("permission_denied: apikey requires user session".to_string())
    );
    assert_eq!(
        key_scope(&actor, ScopedListing::ApiKeyUsage),
        Err("permission_denied: apikey usage requires user session".to_string())
    );
    assert_eq!(
        key_scope(&actor, ScopedListing::Startup),
        Err("permission_denied: startup requires user session".to_string())
    );
}

#[test]
fn retain_owned_keeps_order_and_drops_foreign_keys() {
    let items = vec![10, 20, 30, 40];
    let ids = strings(&["a", "b", "c", "a"]);
    let owned = strings(&["c", "a"]);
    assert_eq!(retain_owned(items, &ids, &owned), vec![10, 30, 40]);
}

#[test]
fn retain_owned_with_nothing_owned_is_empty() {
    let items = vec!["k1", "k2"];
    let ids = strings(&["k1", "k2"]);
    assert!(retain_owned(items, &ids, &Vec::new()).is_empty());
}

#[test]
fn retain_owned_with_everything_owned_keeps_all() {
    let items = vec![1, 2, 3];
    let ids = strings(&["x", "y", "z"]);
    let owned = strings(&["z", "y", "x", "w"]);
    assert_eq!(retain_owned(items, &ids, &owned), vec![1, 2, 3]);
}

#[test]
fn startup_sections_by_scope() {
    let all = startup_sections(&KeyScope::All);
    assert!(all.accounts && all.usage_snapshots && all.usage_aggregate_summary && all.manual_preferred_account);
    let own = startup_sections(&KeyScope::OwnedBy("u".to_string()));
    assert!(!own.accounts && !own.usage_snapshots && !own.usage_aggregate_summary && !own.manual_preferred_account);
}
