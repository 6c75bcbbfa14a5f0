use whisperwire::hosted::{user_prompt, LlmClient, ProbeStep, TagsReply, PROMPT_HEAD, PROMPT_TAIL};
use whisperwire::text::{byte_to_char_index, chars_of, find_chars};
use whisperwire::{Rule, RuleCategory, RuleSet, Severity};

#[test]
fn default_catalog_order_and_shape() {
    let rules = RuleSet::load_default().unwrap();
    let ids: Vec<&str> = rules.rules.iter().map(|r| r.id.as_str()).collect();
    assert_eq!(
        ids,
        vec!["TIME-001", "DNC-001", "DNC-002", "DNC-003", "DISC-001", "DISC-002", "DISC-003", "CONS-001", "IDENT-001", "PREC-001", "REC-001"]
    );
    assert_eq!(rules.version, "1.0.0");
    assert!(rules.rules.iter().all(|r| r.enabled));
    let meta: Vec<&str> = rules.rules.iter().filter(|r| r.requires_metadata).map(|r| r.id.as_str()).collect();
    assert_eq!(meta, vec!["TIME-001", "DNC-003", "PREC-001"]);
}

#[test]
fn rule_lookup_by_id() {
    let rules = RuleSet::load_default().unwrap();
    let r = rules.get_rule("CONS-001").unwrap();
    assert_eq!(r.title, "Consent Revocation Detected");
    assert_eq!(r.severity, Severity::High);
    assert!(rules.get_rule("NOPE-001").is_none());
}

#[test]
fn enabled_rules_keep_order() {
    let mut rules = RuleSet::load_default().unwrap();
    rules.rules[2].enabled = false;
    let enabled: Vec<&Rule> = rules.get_enabled_rules();
    assert_eq!(enabled.len(), 10);
    assert_eq!(enabled[1].id, "DNC-001");
    assert_eq!(enabled[2].id, "DNC-003");
}

#[test]
fn rules_by_category() {
    let rules = RuleSet::load_default().unwrap();
    let dnc: Vec<&str> = rules.get_rules_by_category(RuleCategory::DoNotCall).iter().map(|r| r.id.as_str()).collect();
    assert_eq!(dnc, vec!["DNC-001", "DNC-002", "DNC-003"]);
    assert!(rules.get_rules_by_category(RuleCategory::Prerecorded).len() == 1);
}

#[test]
fn rendering_lists_enabled_rules() {
    let mut rules = RuleSet::load_default().unwrap();
    let yaml = rules.to_yaml();
    assert!(yaml.starts_with("# TCPA Compliance Rules v1.0.0\n\n## TIME-001 - Calling Time Violation\n- Category: CallingTime\n- Severity: High\n"));
    assert!(yaml.contains("- Trigger phrases: [\"before you go\", \"just one more thing\", \"let me just tell you\", \"you might want to hear\", \"are you sure\", \"but wait\"]\n\n"));
    assert!(yaml.contains("## REC-001 - Missing Recording Disclosure\n- Category: RecordingDisclosure\n- Severity: Medium\n"));
    assert!(yaml.contains("- Recommended fix: \"Hi, my name is [Name] calling from [Company Name].\"\n"));
    assert_eq!(yaml, rules.to_yaml());
    rules.rules[10].enabled = false;
    assert!(!rules.to_yaml().contains("## REC-001"));
}

#[test]
fn rendering_quotes_special_characters() {
    let mut rules = RuleSet::load_default().unwrap();
    rules.rules[1].triggers = vec!["say \"stop\"".to_string()];
    let yaml = rules.to_yaml();
    assert!(yaml.contains("- Trigger phrases: [\"say \\\"stop\\\"\"]\n"));
}

#[test]
fn client_defaults_and_model_switch() {
    let mut c = LlmClient::new(None, None);
    assert_eq!(c.get_model(), "llama3.2:1b");
    assert_eq!(c.get_endpoint(), "http://localhost:11434");
    assert!(!c.is_enabled());
    assert_eq!(c.on_tags_reply(&TagsReply::Unlisted), ProbeStep::Available);
    assert!(c.is_enabled());
    c.set_model("mistral:7b".to_string());
    assert!(!c.is_enabled());
    assert_eq!(c.get_model(), "mistral:7b");
}

#[test]
fn probe_matches_model_family() {
    let mut c = LlmClient::new(Some("http://host:1".to_string()), Some("llama3.2:1b".to_string()));
    let listed = TagsReply::Listed(vec!["mistral:latest".to_string(), "llama3.2:3b".to_string()]);
    assert_eq!(c.on_tags_reply(&listed), ProbeStep::Available);
    assert!(c.is_enabled());
    let mut c = LlmClient::new(None, Some("phi3".to_string()));
    let listed = TagsReply::Listed(vec!["llama3.2:1b".to_string()]);
    assert_eq!(c.on_tags_reply(&listed), ProbeStep::FetchModel);
    assert!(!c.is_enabled());
    assert!(c.on_fetch_reply(true));
    assert!(c.is_enabled());
    assert_eq!(c.on_tags_reply(&TagsReply::Failed), ProbeStep::Unavailable);
    assert!(!c.is_enabled());
    assert!(!c.on_fetch_reply(false));
}

#[test]
fn prompts_embed_their_inputs() {
    let c = LlmClient::new(None, None);
    let p = c.generate_system_prompt("RULES HERE");
    assert_eq!(p, format!("{}RULES HERE{}", PROMPT_HEAD, PROMPT_TAIL));
    assert!(p.contains("OUTPUT FORMAT (STRICT JSON ONLY):\n{\n  \"alerts\": ["));
    assert_eq!(
        user_prompt("{\"call_id\":\"c\"}", "hi"),
        "CALL METADATA:\n{\"call_id\":\"c\"}\n\nTRANSCRIPT:\nhi\n\nAnalyze and return JSON:"
    );
}

#[test]
fn literal_search_finds_first_occurrence() {
    let hay = chars_of("abcabc");
    assert_eq!(find_chars(&hay, &chars_of("bc")), Some(1));
    assert_eq!(find_chars(&hay, &chars_of("cab")), Some(2));
    assert_eq!(find_chars(&hay, &chars_of("")), Some(0));
    assert_eq!(find_chars(&hay, &chars_of("abcabcd")), None);
    assert_eq!(find_chars(&hay, &chars_of("x")), None);
}

#[test]
fn byte_offsets_become_character_offsets() {
    let s = chars_of("aé€😀b");
    assert_eq!(byte_to_char_index(&s, 0), 0);
    assert_eq!(byte_to_char_index(&s, 1), 1);
    assert_eq!(byte_to_char_index(&s, 3), 2);
    assert_eq!(byte_to_char_index(&s, 6), 3);
    assert_eq!(byte_to_char_index(&s, 10), 4);
    assert_eq!(byte_to_char_index(&s, 11), 5);
    assert_eq!(byte_to_char_index(&s, 99), 5);
}
