use tradu::{
    after_probe, candidate, first_step, get_default_auth_key, get_default_base_url,
    get_default_endpoint, get_default_formality, get_default_log_level,
    get_default_preserve_formatting, get_default_source_lang, get_default_split_sentences,
    get_default_target_lang, interpret_body, interpret_response, outcome_of, read_reply, BaseDir,
    DeepL, DeepLError, Json, ReplyShape, Resolution, StoredConfig, TraduError, CANDIDATE_COUNT,
};

fn empty_stored() -> StoredConfig {
    StoredConfig {
        log_level: None,
        base_url: None,
        endpoint: None,
        auth_key: None,
        source_lang: None,
        target_lang: None,
        split_sentences: None,
        preserve_formatting: None,
        formality: None,
    }
}

fn keyed(key: &str) -> DeepL {
    let mut s = empty_stored();
    s.auth_key = Some(key.to_string());
    DeepL::from_stored(s)
}

fn assert_defaults_except_key(c: &DeepL) {
    assert_eq!(c.log_level, "info");
    assert_eq!(c.base_url, "api-free.deepl.com");
    assert_eq!(c.endpoint, "v2/translate");
    assert_eq!(c.source_lang, "ES");
    assert_eq!(c.target_lang, "EN");
    assert_eq!(c.split_sentences, "1");
    assert!(!c.preserve_formatting);
    assert_eq!(c.formality, "default");
}

#[test]
fn default_values() {
    assert_eq!(get_default_log_level(), "info");
    assert_eq!(get_default_base_url(), "api-free.deepl.com");
    assert_eq!(get_default_endpoint(), "v2/translate");
    assert_eq!(get_default_auth_key(), "");
    assert_eq!(get_default_source_lang(), "ES");
    assert_eq!(get_default_target_lang(), "EN");
    assert_eq!(get_default_split_sentences(), "1");
    assert!(!get_default_preserve_formatting());
    assert_eq!(get_default_formality(), "default");
}

#[test]
fn default_config_getters() {
    let c = DeepL::default();
    assert_eq!(c.get_log_level(), "info");
    assert_eq!(c.get_auth_key(), "");
    assert_eq!(c.get_source_lang(), "ES");
    assert_eq!(c.get_target_lang(), "EN");
    assert_defaults_except_key(&c);
}

#[test]
fn auth_key_only_fills_defaults() {
    let c = keyed("X");
    assert_eq!(c.get_auth_key(), "X");
    assert_defaults_except_key(&c);
}

#[test]
fn empty_file_loads_defaults() {
    let c = DeepL::from_stored(empty_stored());
    assert_eq!(c.get_auth_key(), "");
    assert_defaults_except_key(&c);
}

#[test]
fn bootstrapped_config_loads_as_defaults() {
    let stored = DeepL::default().to_stored();
    assert_eq!(stored.log_level.as_deref(), Some("info"));
    assert_eq!(stored.preserve_formatting, Some(false));
    let c = DeepL::from_stored(stored);
    assert_eq!(c.get_auth_key(), "");
    assert_defaults_except_key(&c);
}

#[test]
fn stored_fields_are_kept() {
    let mut s = empty_stored();
    s.log_level = Some("debug".to_string());
    s.preserve_formatting = Some(true);
    s.formality = Some("more".to_string());
    let c = DeepL::from_stored(s);
    assert_eq!(c.get_log_level(), "debug");
    assert!(c.preserve_formatting);
    assert_eq!(c.formality, "more");
    assert_eq!(c.base_url, "api-free.deepl.com");
    let back = c.to_stored();
    assert_eq!(back.log_level.as_deref(), Some("debug"));
    assert_eq!(back.formality.as_deref(), Some("more"));
}

#[test]
fn candidate_locations() {
    let expect: [(BaseDir, &[&str]); 5] = [
        (BaseDir::WorkingDir, &["tradu.yml"]),
        (BaseDir::Executable, &["tradu.yml"]),
        (BaseDir::Home, &[".tradu.yml"]),
        (BaseDir::ConfigDir, &["tradu.yml"]),
        (BaseDir::ConfigDir, &["tradu", "tradu.yml"]),
    ];
    assert_eq!(CANDIDATE_COUNT, 5);
    for (i, (base, parts)) in expect.iter().enumerate() {
        let c = candidate(i);
        assert_eq!(c.base, *base);
        assert_eq!(c.components, parts.to_vec());
    }
}

// Runs the search against a stand-in filesystem, recording each rank checked.
fn run_search(exists: &[bool]) -> (Vec<usize>, Resolution) {
    let mut probed = Vec::new();
    let mut step = first_step();
    while let Resolution::Probe(i) = step {
        probed.push(i);
        step = after_probe(i, exists[i]);
    }
    (probed, step)
}

#[test]
fn resolver_first_hit_for_every_subset() {
    for mask in 0u32..32 {
        let exists: Vec<bool> = (0..5).map(|i| mask & (1 << i) != 0).collect();
        let (probed, end) = run_search(&exists);
        match exists.iter().position(|e| *e) {
            Some(k) => {
                assert_eq!(end, Resolution::Found(k));
                assert_eq!(probed, (0..=k).collect::<Vec<_>>());
            }
            None => {
                assert_eq!(end, Resolution::Bootstrap);
                assert_eq!(probed, vec![0, 1, 2, 3, 4]);
            }
        }
    }
}

#[test]
fn resolver_stops_at_first_candidate() {
    let (probed, end) = run_search(&[true, true, true, true, true]);
    assert_eq!(probed, vec![0]);
    assert_eq!(end, Resolution::Found(0));
    assert_eq!(after_probe(4, false), Resolution::Bootstrap);
    assert_eq!(after_probe(2, false), Resolution::Probe(3));
    assert_eq!(after_probe(3, true), Resolution::Found(3));
}

#[test]
fn empty_auth_key_refuses_request() {
    let c = DeepL::default();
    let r = c.plan_translation("Hello", Some("EN"), Some("ES"));
    match r {
        Err(e) => {
            assert!(matches!(e, TraduError::MissingCredential));
            assert!(e.is_fatal());
            assert_eq!(e.exit_status(), 1);
        }
        Ok(_) => panic!("a request was built without a credential"),
    }
}

#[test]
fn request_shape_with_explicit_languages() {
    let c = keyed("secret");
    let req = c.plan_translation("Hello", Some("EN"), Some("ES")).ok().unwrap();
    assert_eq!(req.method, "POST");
    assert_eq!(req.url, "https://api-free.deepl.com/v2/translate");
    assert_eq!(req.content_type, "application/json");
    assert_eq!(req.authorization, "DeepL-Auth-Key secret");
    assert_eq!(
        req.body,
        "{\"formality\":\"default\",\"preserve_formatting\":false,\"source_lang\":\"EN\",\
         \"split_sentences\":\"1\",\"target_lang\":\"ES\",\"text\":[\"Hello\"]}"
    );
    let v: serde_json::Value = serde_json::from_str(&req.body).unwrap();
    assert_eq!(v["text"], serde_json::Value::Array(vec![serde_json::Value::from("Hello")]));
    assert_eq!(v["source_lang"], "EN");
    assert_eq!(v["target_lang"], "ES");
}

#[test]
fn request_uses_configured_languages_when_none_given() {
    let c = keyed("k");
    let req = c.plan_translation("Hola", None, None).ok().unwrap();
    let v: serde_json::Value = serde_json::from_str(&req.body).unwrap();
    assert_eq!(v["source_lang"], "ES");
    assert_eq!(v["target_lang"], "EN");
    let req = c.plan_translation("Hola", None, Some("DE")).ok().unwrap();
    let v: serde_json::Value = serde_json::from_str(&req.body).unwrap();
    assert_eq!(v["source_lang"], "ES");
    assert_eq!(v["target_lang"], "DE");
}

#[test]
fn request_escapes_text_and_carries_options() {
    let mut s = empty_stored();
    s.auth_key = Some("k".to_string());
    s.preserve_formatting = Some(true);
    s.base_url = Some("api.deepl.com".to_string());
    let c = DeepL::from_stored(s);
    let req = c.request_for("say \"hi\"\n", "EN", "FR");
    assert_eq!(req.url, "https://api.deepl.com/v2/translate");
    assert!(req.body.contains("\"text\":[\"say \\\"hi\\\"\\n\"]"));
    assert!(req.body.contains("\"preserve_formatting\":true"));
    let v: serde_json::Value = serde_json::from_str(&req.body).unwrap();
    assert_eq!(v["text"][0], "say \"hi\"\n");
}

#[test]
fn reply_with_error_yields_api_error() {
    match interpret_body("{\"error\":{\"message\":\"Quota exceeded\"}}") {
        Err(TraduError::Api(e)) => assert_eq!(e.message(), "Quota exceeded"),
        other => panic!("unexpected outcome {:?}", other),
    }
}

#[test]
fn reply_with_translation_yields_text() {
    match interpret_body("{\"translations\":[{\"text\":\"Hola\"}]}") {
        Ok(t) => assert_eq!(t, "Hola"),
        other => panic!("unexpected outcome {:?}", other),
    }
}

#[test]
fn error_takes_priority_over_translation() {
    let body = "{\"translations\":[{\"text\":\"Hola\"}],\"error\":{\"message\":\"bad\"}}";
    assert!(matches!(interpret_body(body), Err(TraduError::Api(ref e)) if e.message() == "bad"));
}

#[test]
fn malformed_replies_break_the_protocol() {
    for body in [
        "not json",
        "{}",
        "{\"translations\":[]}",
        "{\"translations\":[{\"txt\":\"x\"}]}",
        "{\"translations\":{\"text\":\"x\"}}",
        "{\"error\":{\"code\":1}}",
        "{\"error\":null}",
    ] {
        let r = interpret_body(body);
        assert!(matches!(r, Err(TraduError::Protocol)), "{} gave {:?}", body, r);
    }
}

#[test]
fn reply_bytes() {
    assert!(matches!(interpret_response(&[0xff, 0xfe, 0x7b]), Err(TraduError::Protocol)));
    let ok = interpret_response("{\"translations\":[{\"text\":\"Grüße\"}]}".as_bytes());
    assert_eq!(ok.ok().unwrap(), "Grüße");
}

#[test]
fn read_reply_parts() {
    let s = read_reply("{\"error\":{\"message\":\"m\"},\"translations\":[{\"text\":\"t\"}]}");
    assert_eq!(s.error, Some(Some("m".to_string())));
    assert_eq!(s.first_text, Some("t".to_string()));
    let s = read_reply("[1,2]");
    assert_eq!(s.error, None);
    assert_eq!(s.first_text, None);
}

#[test]
fn outcome_of_each_shape() {
    let r = outcome_of(ReplyShape { error: None, first_text: Some("a".to_string()) });
    assert_eq!(r.ok().unwrap(), "a");
    let r = outcome_of(ReplyShape { error: Some(None), first_text: Some("a".to_string()) });
    assert!(matches!(r, Err(TraduError::Protocol)));
    let r = outcome_of(ReplyShape { error: None, first_text: None });
    assert!(matches!(r, Err(TraduError::Protocol)));
}

#[test]
fn exit_status_by_error() {
    assert_eq!(TraduError::ConfigRead("x".to_string()).exit_status(), 1);
    assert_eq!(TraduError::ConfigParse("x".to_string()).exit_status(), 1);
    assert_eq!(TraduError::MissingCredential.exit_status(), 1);
    assert_eq!(TraduError::Transport("x".to_string()).exit_status(), 0);
    assert_eq!(TraduError::Api(DeepLError::new("q")).exit_status(), 0);
    assert_eq!(TraduError::Protocol.exit_status(), 0);
    assert!(!TraduError::Protocol.is_fatal());
}

#[test]
fn deepl_error_keeps_message() {
    let e = DeepLError::new("Wrong language");
    assert_eq!(e.message(), "Wrong language");
    assert_eq!(e.message, "Wrong language");
}

#[test]
fn json_reads() {
    let doc = Json::Object(vec![
        ("a".to_string(), Json::Str("x".to_string())),
        ("b".to_string(), Json::Array(vec![Json::Number, Json::Str("y".to_string())])),
        ("a".to_string(), Json::Null),
    ]);
    assert_eq!(doc.member("a").unwrap().text(), Some("x".to_string()));
    assert!(doc.member("c").is_none());
    let list = doc.member("b").unwrap();
    assert!(list.element(0).unwrap().text().is_none());
    assert_eq!(list.element(1).unwrap().text(), Some("y".to_string()));
    assert!(list.element(2).is_none());
    assert!(list.member("a").is_none());
    assert!(doc.element(0).is_none());
}

#[test]
fn request_escapes_control_characters() {
    let c = keyed("k");
    let req = c.request_for("a\u{1}b\\\u{8}\u{c}\r\t", "EN", "FR");
    assert!(req.body.contains("\"text\":[\"a\\u0001b\\\\\\b\\f\\r\\t\"]"), "{}", req.body);
}

#[test]
fn credential_check() {
    assert!(matches!(DeepL::default().check_credential(), Err(TraduError::MissingCredential)));
    assert!(keyed("k").check_credential().is_ok());
}
