use copy2ai::errors::StoreError;
use copy2ai::roles::{Role, RoleStorage};

const CHAT_ID: &str = "1c6d4277-d1b4-44bd-a9a8-d86ead705dc0";
const WRITER_ID: &str = "7c8d9e0f-1a2b-3c4d-5e6f-7a8b9c0d1e2f";

fn custom_role(id: &str, name: &str) -> Role {
    Role {
        id: id.to_string(),
        name: name.to_string(),
        description: "d".to_string(),
        system_prompt: "p".to_string(),
        icon: "i".to_string(),
        avatar: None,
        is_custom: true,
        created_at: 100,
        updated_at: 100,
    }
}

#[test]
fn seeding_writes_ten_presets() {
    let mut store = RoleStorage::new();
    store.initialize_preset_roles();
    let all = store.get_all_roles();
    assert_eq!(all.len(), 10);
    let chat = store.get_role(CHAT_ID).expect("chat preset missing");
    assert_eq!(chat.name, "聊天助手");
    assert!(!chat.is_custom);
    assert!(all.iter().all(|r| !r.is_custom));
}

#[test]
fn preset_cannot_be_deleted_or_unpreset() {
    let mut store = RoleStorage::new();
    store.initialize_preset_roles();
    assert_eq!(store.delete_role(CHAT_ID).unwrap_err(), StoreError::PermissionDenied);
    let mut flipped = store.get_role(CHAT_ID).unwrap().duplicate();
    flipped.is_custom = true;
    assert_eq!(store.update_role(flipped).unwrap_err(), StoreError::PermissionDenied);
    // the preset is still there, untouched
    assert!(!store.get_role(CHAT_ID).unwrap().is_custom);
}

#[test]
fn reset_restores_factory_text_and_keeps_created_at() {
    let mut store = RoleStorage::new();
    store.initialize_preset_roles();
    let original = store.get_role(CHAT_ID).unwrap().duplicate();
    let mut edited = original.duplicate();
    edited.name = "renamed".to_string();
    edited.system_prompt = "changed".to_string();
    store.update_role(edited).unwrap();
    assert_eq!(store.get_role(CHAT_ID).unwrap().name, "renamed");
    store.reset_role(CHAT_ID).unwrap();
    let restored = store.get_role(CHAT_ID).unwrap();
    assert_eq!(restored.name, "聊天助手");
    assert_eq!(restored.system_prompt, original.system_prompt);
    assert_eq!(restored.created_at, original.created_at);
    assert!(!restored.is_custom);
}

#[test]
fn reset_rejects_unknown_custom_and_missing() {
    let mut store = RoleStorage::new();
    store.initialize_preset_roles();
    // a preset whose identifier names no known factory entry cannot be reset
    let mut alien = custom_role("no-factory", "alien");
    alien.is_custom = false;
    store.add_role(alien);
    assert_eq!(store.reset_role("no-factory").unwrap_err(), StoreError::UnknownPreset);
    store.add_role(custom_role("c1", "mine"));
    assert_eq!(store.reset_role("c1").unwrap_err(), StoreError::PermissionDenied);
    assert_eq!(store.reset_role("absent").unwrap_err(), StoreError::NotFound);
}

#[test]
fn every_seeded_preset_is_resettable() {
    let mut store = RoleStorage::new();
    store.initialize_preset_roles();
    let seeded = store.get_all_roles();
    assert_eq!(seeded.len(), 10);
    for preset in &seeded {
        let id = preset.id.clone();
        let mut edited = store.get_role(&id).unwrap().duplicate();
        edited.system_prompt = "overwritten".to_string();
        store.update_role(edited).unwrap();
        store.reset_role(&id).unwrap();
        let restored = store.get_role(&id).unwrap();
        assert_eq!(restored.name, preset.name);
        assert_eq!(restored.created_at, preset.created_at);
        assert!(!restored.is_custom);
    }
    // the content-creation preset in particular is restored to its seed text
    store.reset_role(WRITER_ID).unwrap();
    let writer = store.get_role(WRITER_ID).unwrap();
    assert_eq!(writer.name, "内容创作专家");
    assert_eq!(writer.icon, "✍️");
}

#[test]
fn listing_puts_custom_first_then_by_name() {
    let mut store = RoleStorage::new();
    store.add_role(custom_role("c2", "zeta"));
    store.add_role(custom_role("c1", "alpha"));
    let mut preset = custom_role("p1", "beta");
    preset.is_custom = false;
    store.add_role(preset);
    let all = store.get_all_roles();
    let names: Vec<&str> = all.iter().map(|r| r.name.as_str()).collect();
    assert_eq!(names, vec!["alpha", "zeta", "beta"]);
}

#[test]
fn custom_role_crud() {
    let mut store = RoleStorage::new();
    store.add_role(custom_role("c1", "one"));
    let mut changed = custom_role("c1", "one prime");
    changed.updated_at = 200;
    store.update_role(changed).unwrap();
    assert_eq!(store.get_role("c1").unwrap().name, "one prime");
    assert_eq!(
        store.update_role(custom_role("ghost", "g")).unwrap_err(),
        StoreError::NotFound
    );
    store.delete_role("c1").unwrap();
    assert!(store.get_role("c1").is_none());
    assert_eq!(store.delete_role("c1").unwrap_err(), StoreError::NotFound);
}

#[test]
fn fresh_roles_carry_their_kind() {
    let c = Role::new("n".to_string(), "d".to_string(), "p".to_string(), "i".to_string());
    assert!(c.is_custom);
    assert_eq!(c.id.chars().count(), 36);
    let p = Role::new_preset("n".to_string(), "d".to_string(), "p".to_string(), "i".to_string());
    assert!(!p.is_custom);
    let mut t = custom_role("x", "y");
    let before = t.created_at;
    t.update_timestamp();
    assert_eq!(t.created_at, before);
    assert_eq!(t.name, "y");
}
