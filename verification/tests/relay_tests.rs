use copy2ai::errors::StoreError;
use copy2ai::relay::{
    analysis_text_from_body, chat_completions_url, classify_connection_body,
    connection_probe_url, decide_auth, default_base_url, is_local_service, is_ollama_style,
    make_chat_event_name, ollama_fallback_base, ollama_fallback_probe_url, ollama_tags_url,
    resolve_analysis_params, select_models, select_tag_models, ModelEntry, ModelListDocument,
    RelayEvent, SseRelay,
};

#[test]
fn streamed_delta_then_done() {
    let mut relay = SseRelay::new();
    let first = relay.relay_line("data: {\"choices\":[{\"delta\":{\"content\":\"hi\"}}]}");
    match first {
        Some(RelayEvent::Delta(text)) => assert_eq!(text, "hi"),
        other => panic!("expected a content event, got {:?}", event_name(&other)),
    }
    let second = relay.relay_line("data: [DONE]");
    assert!(matches!(second, Some(RelayEvent::Done)));
    assert!(relay.is_done());
    // after the sentinel nothing more is emitted
    let third = relay.relay_line("data: {\"choices\":[{\"delta\":{\"content\":\"late\"}}]}");
    assert!(third.is_none());
}

fn event_name(ev: &Option<RelayEvent>) -> &'static str {
    match ev {
        Some(RelayEvent::Delta(_)) => "delta",
        Some(RelayEvent::Done) => "done",
        None => "none",
    }
}

#[test]
fn chunked_stream_buffers_partial_lines() {
    let mut relay = SseRelay::new();
    let whole = b"data: {\"choices\":[{\"delta\":{\"content\":\"hi\"}}]}\ndata: [DONE]\n";
    let (a, b) = whole.split_at(20);
    let events = relay.process_chunk(a);
    assert!(events.is_empty());
    let events = relay.process_chunk(b);
    assert_eq!(events.len(), 2);
    assert!(matches!(&events[0], RelayEvent::Delta(t) if t == "hi"));
    assert!(matches!(events[1], RelayEvent::Done));
    assert!(relay.is_done());
    let more = relay.process_chunk(b"data: {\"choices\":[{\"delta\":{\"content\":\"x\"}}]}\n");
    assert!(more.is_empty());
}

#[test]
fn malformed_and_foreign_lines_are_skipped() {
    let mut relay = SseRelay::new();
    assert!(relay.relay_line("data: {not json at all").is_none());
    assert!(relay.relay_line(": keep-alive comment").is_none());
    assert!(relay.relay_line("event: message").is_none());
    assert!(!relay.is_done());
    // the stream still works afterwards
    let ev = relay.relay_line("data: {\"choices\":[{\"delta\":{\"content\":\"ok\"}}]}");
    assert!(matches!(ev, Some(RelayEvent::Delta(t)) if t == "ok"));
}

#[test]
fn endpoint_builders() {
    assert_eq!(chat_completions_url("https://h/v1"), "https://h/v1/chat/completions");
    assert_eq!(connection_probe_url("https://h/v1"), "https://h/v1/models");
    assert_eq!(
        connection_probe_url("https://open.bigmodel.cn/api/paas/v4"),
        "https://open.bigmodel.cn/api/paas/v4/"
    );
    assert!(is_local_service("http://localhost:11434"));
    assert!(is_local_service("http://127.0.0.1:8080/v1"));
    assert!(!is_local_service("https://api.example.com"));
    assert!(is_ollama_style("https://open.bigmodel.cn/api/paas/v4"));
    assert!(!is_ollama_style("https://api.example.com/v1"));
}

#[test]
fn ollama_fallback_rewrites_v1_to_api() {
    assert_eq!(ollama_fallback_base("http://h:11434/v1"), "http://h:11434/api");
    assert_eq!(ollama_fallback_base("http://h:11434/api"), "http://h:11434/api");
    assert_eq!(ollama_fallback_base("http://h:11434///"), "http://h:11434/api");
    assert_eq!(ollama_tags_url("http://h:11434/v1"), "http://h:11434/api/tags");
    assert_eq!(
        ollama_fallback_probe_url("http://h:11434/v1"),
        "http://h:11434/api/chat/completions"
    );
}

#[test]
fn provider_default_urls() {
    assert_eq!(default_base_url("OpenAI"), "https://api.openai.com/v1");
    assert_eq!(default_base_url("Ollama"), "http://localhost:11434");
    assert_eq!(default_base_url("ZhipuAI"), "https://open.bigmodel.cn/api/paas/v4");
    assert_eq!(default_base_url("Copy2AI"), "https://api.copy2ai.com/v1");
    assert_eq!(default_base_url("anything"), "https://api.openai.com/v1");
}

#[test]
fn auth_rules_differ_for_local_hosts() {
    let remote = "https://api.example.com/v1";
    let local = "http://localhost:11434";
    assert_eq!(decide_auth(remote, &None).unwrap_err(), StoreError::Validation);
    assert_eq!(
        decide_auth(remote, &Some("   ".to_string())).unwrap_err(),
        StoreError::Validation
    );
    assert_eq!(
        decide_auth(remote, &Some("sk-1".to_string())).unwrap(),
        Some("sk-1".to_string())
    );
    assert_eq!(decide_auth(local, &None).unwrap(), None);
    assert_eq!(decide_auth(local, &Some(" ".to_string())).unwrap(), None);
    assert_eq!(
        decide_auth(local, &Some("tok".to_string())).unwrap(),
        Some("tok".to_string())
    );
}

#[test]
fn connectivity_body_classification() {
    let listing = classify_connection_body("{\"data\":[{\"id\":\"m\"}]}", 12);
    assert!(listing.success);
    assert_eq!(listing.response_time, Some(12));
    assert_eq!(listing.message, "连接成功，已获取模型列表 (12ms)");
    let vague = classify_connection_body("<html>okay</html>", 345);
    assert!(vague.success);
    assert_eq!(vague.message, "连接成功，但无法确认是否为有效的模型列表接口 (345ms)");
}

fn empty_doc() -> ModelListDocument {
    ModelListDocument { data_ids: None, models_entries: None, bare_ids: None }
}

#[test]
fn model_shapes_in_priority_order() {
    let data = ModelListDocument {
        data_ids: Some(vec!["gpt-a".to_string(), "gpt-b".to_string()]),
        models_entries: Some(vec![ModelEntry {
            id: None,
            name: Some("llama".to_string()),
            description: None,
            max_tokens: None,
        }]),
        bare_ids: Some(vec!["x".to_string()]),
    };
    let models = select_models(&data).unwrap();
    assert_eq!(models.len(), 2);
    assert_eq!(models[0].id, "gpt-a");
    assert_eq!(models[0].name.as_deref(), Some("gpt-a"));

    let models_only = ModelListDocument {
        data_ids: None,
        models_entries: Some(vec![
            ModelEntry {
                id: None,
                name: Some("llama".to_string()),
                description: Some("local".to_string()),
                max_tokens: Some(4096),
            },
            ModelEntry { id: None, name: None, description: None, max_tokens: None },
        ]),
        bare_ids: None,
    };
    let models = select_models(&models_only).unwrap();
    assert_eq!(models.len(), 1);
    assert_eq!(models[0].id, "llama");
    assert_eq!(models[0].description.as_deref(), Some("local"));
    assert_eq!(models[0].max_tokens, Some(4096));

    let bare = ModelListDocument {
        bare_ids: Some(vec!["solo".to_string()]),
        ..empty_doc()
    };
    let models = select_models(&bare).unwrap();
    assert_eq!(models.len(), 1);
    assert_eq!(models[0].id, "solo");
    assert!(models[0].name.is_none());

    assert_eq!(select_models(&empty_doc()).unwrap_err(), StoreError::ParseFailure);
}

#[test]
fn analysis_parameter_resolution() {
    let (key, base, model) = resolve_analysis_params(
        Some("k1".to_string()),
        None,
        Some(String::new()),
        None,
    )
    .unwrap();
    assert_eq!(key, "k1");
    assert_eq!(base, "https://api.openai.com/v1");
    assert_eq!(model, "gpt-3.5-turbo");

    let (key, base, model) = resolve_analysis_params(
        Some(String::new()),
        Some("env-key".to_string()),
        Some("https://alt/v1".to_string()),
        Some("m-9".to_string()),
    )
    .unwrap();
    assert_eq!(key, "env-key");
    assert_eq!(base, "https://alt/v1");
    assert_eq!(model, "m-9");

    let err = resolve_analysis_params(None, None, None, None).unwrap_err();
    assert_eq!(err, StoreError::Validation);
}

#[test]
fn analysis_text_extraction() {
    let body = "{\"choices\":[{\"message\":{\"content\":\"the answer\"}}]}";
    assert_eq!(analysis_text_from_body(body), "the answer");
    assert_eq!(analysis_text_from_body("not json"), "无法解析结果");
    assert_eq!(analysis_text_from_body("{\"choices\":[]}"), "无法解析结果");
}

#[test]
fn chat_event_names_are_fresh() {
    let a = make_chat_event_name();
    let b = make_chat_event_name();
    assert!(a.starts_with("chat_response_"));
    assert_eq!(a.chars().count(), "chat_response_".chars().count() + 36);
    assert_ne!(a, b);
}

#[test]
fn tag_shapes_name_every_model() {
    // the `models` array of a native tags answer
    let tags = ModelListDocument {
        data_ids: None,
        models_entries: Some(vec![ModelEntry {
            id: None,
            name: Some("llama3".to_string()),
            description: None,
            max_tokens: None,
        }]),
        bare_ids: None,
    };
    let models = select_tag_models(&tags).unwrap();
    assert_eq!(models.len(), 1);
    assert_eq!(models[0].id, "llama3");
    assert_eq!(models[0].name.as_deref(), Some("llama3"));

    // the bare-array fallback copies the name into both fields
    let bare = ModelListDocument {
        data_ids: None,
        models_entries: None,
        bare_ids: Some(vec!["phi3".to_string()]),
    };
    let models = select_tag_models(&bare).unwrap();
    assert_eq!(models.len(), 1);
    assert_eq!(models[0].id, "phi3");
    assert_eq!(models[0].name.as_deref(), Some("phi3"));

    let nothing = ModelListDocument { data_ids: None, models_entries: None, bare_ids: None };
    assert_eq!(select_tag_models(&nothing).unwrap_err(), StoreError::ParseFailure);
}
