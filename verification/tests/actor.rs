use codexmanager_service::actor::{
    normalize_role, RpcActor, ROLE_ADMIN, ROLE_MEMBER, ROLE_SYSTEM_ADMIN,
};

#[test]
fn system_admin_has_no_user() {
    let actor = RpcActor::system_admin();
    assert_eq!(actor.role, "system_admin");
    assert_eq!(actor.user_id, None);
    assert!(actor.is_admin());
    assert!(!actor.is_member());
}

#[test]
fn normalize_role_matches_known_roles_case_insensitively() {
    assert_eq!(normalize_role(Some("admin")), ROLE_ADMIN);
    assert_eq!(normalize_role(Some("  ADMIN \t")), ROLE_ADMIN);
    assert_eq!(normalize_role(Some("Member")), ROLE_MEMBER);
    assert_eq!(normalize_role(Some("\u{3000}member\n")), ROLE_MEMBER);
    assert_eq!(normalize_role(Some("SYSTEM_ADMIN")), ROLE_SYSTEM_ADMIN);
}

#[test]
fn normalize_role_defaults_to_system_admin() {
    assert_eq!(normalize_role(None), ROLE_SYSTEM_ADMIN);
    assert_eq!(normalize_role(Some("")), ROLE_SYSTEM_ADMIN);
    assert_eq!(normalize_role(Some("guest")), ROLE_SYSTEM_ADMIN);
    assert_eq!(normalize_role(Some("mem ber")), ROLE_SYSTEM_ADMIN);
}

#[test]
fn normalize_role_is_idempotent_on_examples() {
    for input in ["admin", " Member ", "root", ""] {
        let once = normalize_role(Some(input));
        assert_eq!(normalize_role(Some(once)), once);
    }
}

#[test]
fn from_parts_trims_user_id_and_drops_blank_ones() {
    let actor = RpcActor::from_parts(Some("member"), Some("  user-1 \n"));
    assert_eq!(actor.role, "member");
    assert_eq!(actor.user_id.as_deref(), Some("user-1"));
    let blank = RpcActor::from_parts(Some("member"), Some(" \t "));
    assert_eq!(blank.user_id, None);
    let missing = RpcActor::from_parts(Some("member"), None);
    assert_eq!(missing.user_id, None);
}

#[test]
fn from_parts_unknown_role_is_admin() {
    let actor = RpcActor::from_parts(Some("superuser"), Some("u"));
    assert_eq!(actor.role, "system_admin");
    assert!(actor.is_admin());
    assert!(!actor.is_member());
}

#[test]
fn admin_and_member_are_exclusive() {
    for role in [Some("admin"), Some("member"), Some("system_admin"), Some("x"), None] {
        let actor = RpcActor::from_parts(role, None);
        assert!(actor.is_admin() != actor.is_member());
    }
}

#[test]
fn permissions_by_role() {
    let admin = RpcActor::from_parts(Some("admin"), None);
    assert_eq!(admin.permissions(), vec!["system:admin"]);
    let member = RpcActor::from_parts(Some("member"), Some("u"));
    assert_eq!(
        member.permissions(),
        vec!["apikey:self", "requestlog:self", "models:read", "profile:self"]
    );
}

#[test]
fn hand_built_actor_with_other_role_is_neither() {
    let actor = RpcActor { role: "auditor".to_string(), user_id: None };
    assert!(!actor.is_admin());
    assert!(!actor.is_member());
    assert_eq!(actor.permissions().len(), 4);
}

#[test]
fn rebuilding_a_built_actor_changes_nothing() {
    let built = RpcActor::from_parts(Some(" Admin "), Some(" u-9 "));
    let rebuilt = RpcActor::from_parts(Some(built.role.as_str()), built.user_id.as_deref());
    assert_eq!(rebuilt.role, built.role);
    assert_eq!(rebuilt.user_id, built.user_id);
}
