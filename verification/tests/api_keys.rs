use codexmanager_service::api_keys::quota_limits_for_keys;

#[test]
fn quota_limits_follow_key_ids() {
    let ids: Vec<String> = vec!["a".to_string(), "b".to_string(), "c".to_string()];
    let entries = vec![("a".to_string(), 5), ("c".to_string(), 7), ("a".to_string(), 9)];
    assert_eq!(quota_limits_for_keys(&ids, entries), vec![Some(9), None, Some(7)]);
}

#[test]
fn quota_limits_without_entries() {
    let ids: Vec<String> = vec!["a".to_string()];
    assert_eq!(quota_limits_for_keys(&ids, Vec::new()), vec![None]);
    assert!(quota_limits_for_keys(&Vec::new(), vec![("a".to_string(), 1)]).is_empty());
}
