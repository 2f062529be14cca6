use openfang::auth::manager::{AuthManager, UserConfig};
use openfang::auth::role::{Action, UserRole};
use openfang::error::OpenFangError;
use openfang::ids::UserId;

fn config(name: &str, role: &str, bindings: &[(&str, &str)], is_default: bool) -> UserConfig {
    UserConfig {
        name: name.to_string(),
        role: role.to_string(),
        channel_bindings: bindings
            .iter()
            .map(|(channel, id)| (channel.to_string(), id.to_string()))
            .collect(),
        api_key_hash: None,
        is_default,
    }
}

fn test_configs() -> Vec<UserConfig> {
    vec![
        config("Alice", "owner", &[("telegram", "123456"), ("discord", "987654")], false),
        config("Guest", "user", &[("telegram", "999999")], false),
        config("ReadOnly", "viewer", &[], false),
    ]
}

#[test]
fn test_user_registration() {
    let manager = AuthManager::new(&test_configs());
    assert!(manager.is_enabled());
    assert_eq!(manager.user_count(), 3);
}

#[test]
fn test_identify_from_channel() {
    let manager = AuthManager::new(&test_configs());

    // Alice on Telegram
    let owner_tg = manager.identify("telegram", "123456");
    assert!(owner_tg.is_some());

    // Alice on Discord
    let owner_dc = manager.identify("discord", "987654");
    assert!(owner_dc.is_some());

    // Same user across channels
    assert_eq!(owner_tg.unwrap(), owner_dc.unwrap());

    // Unknown user
    assert!(manager.identify("telegram", "unknown").is_none());
}

#[test]
fn test_owner_can_do_everything() {
    let manager = AuthManager::new(&test_configs());
    let owner_id = manager.identify("telegram", "123456").unwrap();

    assert!(manager.authorize(owner_id, &Action::ChatWithAgent).is_ok());
    assert!(manager.authorize(owner_id, &Action::SpawnAgent).is_ok());
    assert!(manager.authorize(owner_id, &Action::KillAgent).is_ok());
    assert!(manager.authorize(owner_id, &Action::ManageUsers).is_ok());
    assert!(manager.authorize(owner_id, &Action::ModifyConfig).is_ok());
}

#[test]
fn test_user_limited_access() {
    let manager = AuthManager::new(&test_configs());
    let guest_id = manager.identify("telegram", "999999").unwrap();

    // User can chat and view config
    assert!(manager.authorize(guest_id, &Action::ChatWithAgent).is_ok());
    assert!(manager.authorize(guest_id, &Action::ViewConfig).is_ok());

    // User cannot spawn/kill/manage
    assert!(manager.authorize(guest_id, &Action::SpawnAgent).is_err());
    assert!(manager.authorize(guest_id, &Action::KillAgent).is_err());
    assert!(manager.authorize(guest_id, &Action::ManageUsers).is_err());
}

#[test]
fn test_viewer_read_only() {
    let manager = AuthManager::new(&test_configs());
    let users = manager.list_users();
    let viewer = users.iter().find(|u| u.name == "ReadOnly").unwrap();

    // Viewer cannot even chat
    assert!(manager.authorize(viewer.id, &Action::ChatWithAgent).is_err());
}

#[test]
fn test_unknown_user_denied() {
    let manager = AuthManager::new(&test_configs());
    let fake_id = UserId::new();
    assert!(manager.authorize(fake_id, &Action::ChatWithAgent).is_err());
}

#[test]
fn test_no_users_means_disabled() {
    let manager = AuthManager::new(&[]);
    assert!(!manager.is_enabled());
    assert_eq!(manager.user_count(), 0);
}

#[test]
fn test_new_with_default_binds_is_default_user() {
    // When one entry sets `is_default`, the manager must register that user under the
    // persistent UUID (not a fresh one).
    let default_uid = UserId::new();
    let configs = vec![config("Alice", "user", &[], false), config("Owner", "owner", &[], true)];

    let manager = AuthManager::new_with_default(&configs, Some(default_uid));
    // Owner's name resolves to the persistent UUID.
    let owner = manager.get_user(default_uid).expect("owner registered");
    assert_eq!(owner.name, "Owner");
    assert_eq!(owner.role, UserRole::Owner);
}

#[test]
fn test_new_with_default_falls_back_to_first_user() {
    // When no entry sets `is_default`, the first user in the list inherits the persistent UUID.
    let default_uid = UserId::new();
    let configs =
        vec![config("Primary", "owner", &[], false), config("Secondary", "user", &[], false)];

    let manager = AuthManager::new_with_default(&configs, Some(default_uid));
    let primary = manager.get_user(default_uid).expect("primary registered");
    assert_eq!(primary.name, "Primary");
}

#[test]
fn test_new_with_default_none_keeps_fresh_uuids() {
    // Pass `None`: no user is bound to the persistent UUID; each entry gets a fresh `UserId`.
    let configs = test_configs();
    let manager = AuthManager::new_with_default(&configs, None);
    assert_eq!(manager.user_count(), 3);
    // None of the users can be looked up under the nil UUID by accident.
    assert!(manager.get_user(UserId(uuid::Uuid::nil().as_u128())).is_none());
}

#[test]
fn test_new_with_default_empty_config_is_noop() {
    // Empty config: the default UUID has nowhere to bind, so the manager comes up disabled.
    let default_uid = UserId::new();
    let manager = AuthManager::new_with_default(&[], Some(default_uid));
    assert!(!manager.is_enabled());
    assert_eq!(manager.user_count(), 0);
}

#[test]
fn test_role_parsing() {
    assert_eq!(UserRole::from_str_role("owner"), UserRole::Owner);
    assert_eq!(UserRole::from_str_role("admin"), UserRole::Admin);
    assert_eq!(UserRole::from_str_role("viewer"), UserRole::Viewer);
    assert_eq!(UserRole::from_str_role("user"), UserRole::User);
    assert_eq!(UserRole::from_str_role("OWNER"), UserRole::Owner);
    assert_eq!(UserRole::from_str_role("unknown"), UserRole::User);
}

#[test]
fn role_names_are_read_back() {
    for role in [UserRole::Viewer, UserRole::User, UserRole::Admin, UserRole::Owner] {
        assert_eq!(UserRole::from_str_role(&role.to_string()), role);
    }
    assert_eq!(UserRole::Admin.to_string(), "admin");
    assert!(UserRole::Viewer < UserRole::User);
    assert!(UserRole::User < UserRole::Admin);
    assert!(UserRole::Admin < UserRole::Owner);
    assert_eq!(UserRole::from_str_role("AdMiN"), UserRole::Admin);
    assert_eq!(UserRole::from_str_role("\u{c4}DMIN"), UserRole::User);
    assert_eq!(UserRole::from_lowercase("ADMIN"), UserRole::User);
}

#[test]
fn denials_say_why() {
    let user = UserId(0x1234_5678_9abc_4def_8000_0000_0000_0001);
    let manager = AuthManager::with_ids(&[config("Bob", "user", &[], false)], &[user]);
    match manager.authorize(user, &Action::InstallSkill) {
        Err(OpenFangError::AuthDenied(text)) => assert_eq!(
            text,
            "User 'Bob' (role: user) lacks permission for InstallSkill (requires: admin)"
        ),
        other => panic!("expected a denial, got {other:?}"),
    }
    match manager.authorize(UserId::nil(), &Action::ViewUsage) {
        Err(OpenFangError::AuthDenied(text)) => assert_eq!(text, "Unknown user"),
        other => panic!("expected a denial, got {other:?}"),
    }
    assert_eq!(user.to_string(), "12345678-9abc-4def-8000-000000000001");
}

#[test]
fn later_binding_of_a_channel_wins() {
    let configs = vec![
        config("A", "user", &[("slack", "u1")], false),
        config("B", "admin", &[("slack", "u1"), ("slack", "u2")], false),
    ];
    let ids = [UserId(1), UserId(2)];
    let manager = AuthManager::with_ids(&configs, &ids);
    assert_eq!(manager.identify("slack", "u1"), Some(UserId(2)));
    assert_eq!(manager.identify("slack", "u2"), Some(UserId(2)));
    assert_eq!(manager.identify("slac", "k:u2"), None);
    // The two parts of a binding are joined by a colon.
    let joined = AuthManager::with_ids(&[config("C", "user", &[("a:b", "c")], false)], &[UserId(3)]);
    assert_eq!(joined.identify("a", "b:c"), Some(UserId(3)));
    assert_eq!(manager.user_count(), 2);
}

#[test]
fn default_id_goes_to_one_user() {
    let default_uid = UserId(7);
    let configs = vec![
        config("A", "user", &[], false),
        config("B", "user", &[], true),
        config("C", "user", &[], true),
    ];
    let ids = AuthManager::assign_ids(&configs, Some(default_uid));
    assert_eq!(ids.len(), 3);
    assert_eq!(ids[1], default_uid);
    assert_ne!(ids[0], default_uid);
    assert_ne!(ids[2], default_uid);
    assert_ne!(ids[0], ids[2]);
}

#[test]
fn actions_need_the_documented_roles() {
    let needed = [
        (Action::ChatWithAgent, UserRole::User),
        (Action::ViewConfig, UserRole::User),
        (Action::ViewUsage, UserRole::Admin),
        (Action::SpawnAgent, UserRole::Admin),
        (Action::KillAgent, UserRole::Admin),
        (Action::InstallSkill, UserRole::Admin),
        (Action::ModifyConfig, UserRole::Owner),
        (Action::ManageUsers, UserRole::Owner),
    ];
    for (action, role) in needed {
        assert_eq!(action.required_role(), role);
    }
    assert_eq!(Action::ModifyConfig.name(), "ModifyConfig");
}
