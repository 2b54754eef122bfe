use codexmanager_service::model_groups::{
    model_group_delete_id, model_group_payload, model_groups_payload_kind,
    route_model_groups_method, ModelGroupPayload,
    ModelGroupsMethod,
};

#[test]
fn routes_known_methods() {
    assert_eq!(route_model_groups_method("modelGroups/list"), Some(ModelGroupsMethod::List));
    assert_eq!(route_model_groups_method("modelGroups/save"), Some(ModelGroupsMethod::Save));
    assert_eq!(route_model_groups_method("modelGroups/delete"), Some(ModelGroupsMethod::Delete));
    assert_eq!(
        route_model_groups_method("modelGroups/setModels"),
        Some(ModelGroupsMethod::SetModels)
    );
    assert_eq!(
        route_model_groups_method("modelGroups/setUsers"),
        Some(ModelGroupsMethod::SetUsers)
    );
}

#[test]
fn leaves_other_methods_alone() {
    assert_eq!(route_model_groups_method("modelGroups/LIST"), None);
    assert_eq!(route_model_groups_method("apikey/list"), None);
    assert_eq!(route_model_groups_method(""), None);
}

#[test]
fn missing_payload_is_refused() {
    let r: Result<u32, String> = model_group_payload(ModelGroupPayload::Group, None);
    assert_eq!(r, Err("missing model group payload".to_string()));
    let r: Result<u32, String> = model_group_payload(ModelGroupPayload::GroupUsers, None);
    assert_eq!(r, Err("missing model group users payload".to_string()));
}

#[test]
fn unparsable_payload_is_refused_with_reason() {
    let r: Result<u32, String> = model_group_payload(
        ModelGroupPayload::GroupModels,
        Some(Err("missing field `id`".to_string())),
    );
    assert_eq!(r, Err("invalid model group models payload: missing field `id`".to_string()));
}

#[test]
fn parsed_payload_is_used() {
    assert_eq!(model_group_payload(ModelGroupPayload::Group, Some(Ok(7u32))), Ok(7));
}

#[test]
fn delete_id_defaults_to_empty() {
    assert_eq!(model_group_delete_id(Some("g1")), "g1");
    assert_eq!(model_group_delete_id(None), "");
}

#[test]
fn payload_kinds_by_method() {
    assert_eq!(model_groups_payload_kind(ModelGroupsMethod::List), None);
    assert_eq!(model_groups_payload_kind(ModelGroupsMethod::Delete), None);
    assert_eq!(model_groups_payload_kind(ModelGroupsMethod::Save), Some(ModelGroupPayload::Group));
    assert_eq!(
        model_groups_payload_kind(ModelGroupsMethod::SetModels),
        Some(ModelGroupPayload::GroupModels)
    );
    assert_eq!(
        model_groups_payload_kind(ModelGroupsMethod::SetUsers),
        Some(ModelGroupPayload::GroupUsers)
    );
}
