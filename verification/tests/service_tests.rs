use copy2ai::ai_roles::{default_ai_config, AIManager, AIRole};
use copy2ai::ai_service::{AIService, Role};
use copy2ai::errors::StoreError;
use copy2ai::media::{calculate_image_hash, image_to_base64};
use copy2ai::settings::{default_settings, AIProviderSetting, AISettingsManager};
use base64::Engine as _;

fn ai_role(id: &str, default: Option<bool>) -> AIRole {
    AIRole {
        id: id.to_string(),
        name: format!("name-{}", id),
        description: "d".to_string(),
        system_prompt: "p".to_string(),
        icon: "i".to_string(),
        category: "general".to_string(),
        is_default: default,
    }
}

#[test]
fn analysis_roles_refuse_duplicates_and_protect_defaults() {
    let mut manager = AIManager::new(Vec::new());
    manager.add_role(ai_role("a", None)).unwrap();
    manager.add_role(ai_role("d", Some(true))).unwrap();
    assert_eq!(manager.add_role(ai_role("a", None)).unwrap_err(), StoreError::Validation);
    assert_eq!(manager.get_all_roles().len(), 2);
    assert_eq!(manager.delete_role("d").unwrap_err(), StoreError::PermissionDenied);
    assert_eq!(manager.delete_role("ghost").unwrap_err(), StoreError::NotFound);
    manager.delete_role("a").unwrap();
    assert_eq!(manager.get_all_roles().len(), 1);
    let mut renamed = ai_role("d", Some(true));
    renamed.name = "renamed".to_string();
    manager.update_role(renamed).unwrap();
    assert_eq!(manager.get_all_roles()[0].name, "renamed");
    assert_eq!(
        manager.update_role(ai_role("ghost", None)).unwrap_err(),
        StoreError::NotFound
    );
}

fn service_role(id: &str, default: bool) -> Role {
    Role {
        id: id.to_string(),
        name: "n".to_string(),
        description: "d".to_string(),
        system_prompt: "p".to_string(),
        is_default: default,
        created_at: 1,
        updated_at: 1,
    }
}

#[test]
fn chat_service_keeps_its_default_persona() {
    let mut service = AIService::new();
    let roles = service.load_roles();
    assert_eq!(roles.len(), 1);
    assert_eq!(roles[0].id, "default");
    assert!(roles[0].is_default);
    assert_eq!(roles[0].name, "默认助手");

    assert_eq!(
        service.delete_role("default").unwrap_err(),
        StoreError::PermissionDenied
    );
    let demoted = service_role("default", false);
    assert_eq!(service.update_role(demoted).unwrap_err(), StoreError::PermissionDenied);

    service.add_role(service_role("mine", false)).unwrap();
    assert_eq!(
        service.add_role(service_role("mine", false)).unwrap_err(),
        StoreError::Validation
    );
    service.delete_role("mine").unwrap();
    assert_eq!(service.delete_role("mine").unwrap_err(), StoreError::NotFound);
}

#[test]
fn chat_service_placeholder_answers() {
    let service = AIService::new();
    assert_eq!(service.translate_text("hi", "English"), "这是 hi 的English翻译");
    assert_eq!(service.summarize_text("hi"), "这是 hi 的总结");
}

#[test]
fn provider_settings_lifecycle() {
    let seeded = default_settings(Some("configured-key".to_string()));
    assert_eq!(seeded.selected_provider_id, "Copy2AI");
    assert_eq!(seeded.providers.len(), 2);
    let mut manager = AISettingsManager::with_settings(seeded);

    let bundled = manager.get_provider_setting("Copy2AI").unwrap();
    assert_eq!(bundled.selected_model, "GLM-4-Flash-250414");
    assert_eq!(bundled.api_key.as_deref(), Some("configured-key"));
    assert_eq!(bundled.temperature_milli, 700);
    assert_eq!(bundled.max_tokens, 2048);
    assert!(bundled.use_stream);

    let alternative = manager.get_provider_setting("kimi").unwrap();
    assert_eq!(alternative.selected_model, "moonshot-v1-8k");
    assert!(alternative.api_key.is_none());

    assert_eq!(
        manager.get_provider_setting("ghost").unwrap_err(),
        StoreError::NotFound
    );

    let custom = AIProviderSetting {
        custom_api_base_url: Some("http://localhost:11434/v1".to_string()),
        selected_model: "llama3".to_string(),
        api_key: None,
        models_list_url: None,
        temperature_milli: 500,
        max_tokens: 1024,
        use_stream: false,
        dynamic_models: Some(vec!["llama3".to_string(), "phi3".to_string()]),
        last_test_time: Some(9),
        test_success: Some(true),
    };
    manager.update_provider_setting("Ollama", custom);
    let read_back = manager.get_provider_setting("Ollama").unwrap();
    assert_eq!(read_back.selected_model, "llama3");
    assert_eq!(read_back.dynamic_models.as_ref().unwrap().len(), 2);
    assert_eq!(manager.get_settings().providers.len(), 3);

    let mut replaced = read_back;
    replaced.selected_model = "phi3".to_string();
    manager.update_provider_setting("Ollama", replaced);
    assert_eq!(manager.get_settings().providers.len(), 3);
    assert_eq!(
        manager.get_provider_setting("Ollama").unwrap().selected_model,
        "phi3"
    );
}

#[test]
fn tiny_image_hash_is_its_dimensions() {
    let bytes: Vec<u8> = vec![0; 4 * 5 * 7];
    assert_eq!(calculate_image_hash(5, 7, &bytes), "5x7");
}

#[test]
fn image_hash_samples_the_grid() {
    let bytes: Vec<u8> = vec![7; 4 * 10 * 10];
    let hash = calculate_image_hash(10, 10, &bytes);
    assert_eq!(hash, "7777".repeat(25));
    // changing a sampled pixel changes the hash
    let mut other = bytes.clone();
    other[0] = 9;
    assert_ne!(calculate_image_hash(10, 10, &other), hash);
}

#[test]
fn image_renders_to_png_data_url() {
    let pixel: Vec<u8> = vec![255, 0, 0, 255];
    let url = image_to_base64(1, 1, &pixel).expect("a 1x1 image should encode");
    assert!(url.starts_with("data:image/png;base64,"));
    let b64 = &url["data:image/png;base64,".len()..];
    assert!(!b64.is_empty());
    // the payload decodes back to a PNG header
    let decoded = base64::engine::general_purpose::STANDARD.decode(b64).unwrap();
    assert_eq!(&decoded[1..4], b"PNG");
}

#[test]
fn analysis_configuration_defaults_and_updates() {
    let mut manager = AIManager::new(Vec::new());
    let config = manager.get_config();
    assert!(config.api_key.is_none());
    assert_eq!(config.model, "gpt-3.5-turbo");
    assert_eq!(config.temperature_milli, 700);
    assert_eq!(config.max_tokens, 1000);

    let mut changed = default_ai_config();
    changed.model = "gpt-4o-mini".to_string();
    changed.max_tokens = 4096;
    manager.update_config(changed);
    let read_back = manager.get_config();
    assert_eq!(read_back.model, "gpt-4o-mini");
    assert_eq!(read_back.max_tokens, 4096);
    // the role list is untouched by a configuration update
    assert!(manager.get_all_roles().is_empty());
}
