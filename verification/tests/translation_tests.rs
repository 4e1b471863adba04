use copy2ai::translation::{
    accept_translation, evaluate_translation_probe, get_supported_languages, TranslationError,
    TranslationItem, TranslationManager, TranslationProbeReply, TranslationResult,
    TranslationSettings,
};

fn settings(appid: &str, key: &str) -> TranslationSettings {
    TranslationSettings {
        appid: appid.to_string(),
        key: key.to_string(),
        translation_from: "auto".to_string(),
        translation_to: "zh".to_string(),
    }
}

#[test]
fn sign_matches_md5_of_concatenation() {
    let manager = TranslationManager::with_settings(settings("X", "Y"));
    let sign = manager.generate_sign("hello", "12345678");
    assert_eq!(sign, "00b9bdadee7fa92e777d1f2eee309786");
    assert_eq!(sign, format!("{:x}", md5::compute("Xhello12345678Y")));
}

#[test]
fn prepare_rejects_missing_credentials() {
    let manager = TranslationManager::new();
    let err = manager.prepare_translate_request("hi").unwrap_err();
    assert_eq!(err, TranslationError::MissingCredentials);
    let half = TranslationManager::with_settings(settings("X", ""));
    assert_eq!(
        half.prepare_translate_request("hi").unwrap_err(),
        TranslationError::MissingCredentials
    );
}

#[test]
fn prepare_rejects_overlong_text() {
    let manager = TranslationManager::with_settings(settings("X", "Y"));
    let long: String = "字".repeat(2001);
    assert_eq!(
        manager.prepare_translate_request(&long).unwrap_err(),
        TranslationError::TextTooLong
    );
    let max: String = "字".repeat(2000);
    assert!(manager.prepare_translate_request(&max).is_ok());
}

#[test]
fn prepare_builds_signed_form_fields() {
    let manager = TranslationManager::with_settings(settings("X", "Y"));
    let req = manager.prepare_translate_request("hello").unwrap();
    assert_eq!(req.q, "hello");
    assert_eq!(req.from, "auto");
    assert_eq!(req.to, "zh");
    assert_eq!(req.appid, "X");
    assert_eq!(req.salt.chars().count(), 8);
    assert!(req.salt.chars().all(|c| c.is_ascii_alphanumeric()));
    assert_eq!(req.sign, manager.generate_sign("hello", &req.salt));
}

#[test]
fn accept_translation_classifies_responses() {
    let with_error = TranslationResult {
        from: String::new(),
        to: String::new(),
        trans_result: Vec::new(),
        error_code: Some("54001".to_string()),
        error_msg: Some("Invalid Sign".to_string()),
    };
    match accept_translation(with_error).unwrap_err() {
        TranslationError::Upstream(code, msg) => {
            assert_eq!(code, "54001");
            assert_eq!(msg, "Invalid Sign");
        }
        other => panic!("unexpected error {:?}", other),
    }

    let with_error_no_msg = TranslationResult {
        from: String::new(),
        to: String::new(),
        trans_result: Vec::new(),
        error_code: Some("52003".to_string()),
        error_msg: None,
    };
    match accept_translation(with_error_no_msg).unwrap_err() {
        TranslationError::Upstream(_, msg) => assert_eq!(msg, "未知错误"),
        other => panic!("unexpected error {:?}", other),
    }

    let empty = TranslationResult {
        from: "en".to_string(),
        to: "zh".to_string(),
        trans_result: Vec::new(),
        error_code: None,
        error_msg: None,
    };
    assert_eq!(accept_translation(empty).unwrap_err(), TranslationError::EmptyResult);

    let good = TranslationResult {
        from: "en".to_string(),
        to: "zh".to_string(),
        trans_result: vec![TranslationItem {
            src: "hello".to_string(),
            dst: "你好".to_string(),
        }],
        error_code: None,
        error_msg: None,
    };
    let accepted = accept_translation(good).unwrap();
    assert_eq!(accepted.trans_result[0].dst, "你好");
}

#[test]
fn supported_languages_are_the_fixed_list() {
    let langs = get_supported_languages();
    assert_eq!(langs.len(), 29);
    assert_eq!(langs[0].code, "auto");
    assert_eq!(langs[0].name, "自动检测");
    assert_eq!(langs[1].code, "zh");
    assert_eq!(langs[2].code, "en");
    assert_eq!(langs[28].code, "vie");
    assert_eq!(langs[28].name, "越南语");
}

#[test]
fn default_settings_translate_to_chinese() {
    let manager = TranslationManager::new();
    let s = manager.get_settings();
    assert_eq!(s.appid, "");
    assert_eq!(s.key, "");
    assert_eq!(s.translation_from, "auto");
    assert_eq!(s.translation_to, "zh");
    let mut manager = manager;
    manager.update_settings(settings("a", "b"));
    assert_eq!(manager.get_settings().appid, "a");
}

#[test]
fn probe_accepts_any_answer_with_a_result_field() {
    // even an empty result list counts as a reachable provider
    let empty_list = TranslationProbeReply {
        has_trans_result: true,
        error_code: None,
        error_msg: None,
    };
    assert_eq!(evaluate_translation_probe(empty_list), Ok(true));

    let with_error = TranslationProbeReply {
        has_trans_result: false,
        error_code: Some("52003".to_string()),
        error_msg: Some("UNAUTHORIZED USER".to_string()),
    };
    match evaluate_translation_probe(with_error).unwrap_err() {
        TranslationError::Upstream(code, msg) => {
            assert_eq!(code, "52003");
            assert_eq!(msg, "UNAUTHORIZED USER");
        }
        other => panic!("unexpected error {:?}", other),
    }

    let shapeless = TranslationProbeReply {
        has_trans_result: false,
        error_code: None,
        error_msg: None,
    };
    assert_eq!(
        evaluate_translation_probe(shapeless).unwrap_err(),
        TranslationError::Unrecognized
    );
}
