use whisperwire::evaluator::severity_to_string;
use whisperwire::hosted::{LlmAlert, LlmEvidence, LlmResponse, LlmSuggestion};
use whisperwire::orchestrator::{evaluate_transcript, normalize_response};
use whisperwire::{Alert, CallMetadata, ComplianceEvaluator, EvaluationOutput, RuleSet, Severity};

fn metadata(dnc: bool, consent: bool, prerecorded: bool, call_type: &str) -> CallMetadata {
    CallMetadata {
        call_id: "call-1".to_string(),
        agent_id: "agent-7".to_string(),
        agent_name: "Pat".to_string(),
        call_start_time: "2026-01-16T10:00:00Z".to_string(),
        caller_timezone: None,
        customer_phone: None,
        is_dnc_listed: dnc,
        has_prior_consent: consent,
        is_prerecorded: prerecorded,
        call_type: call_type.to_string(),
    }
}

fn plain() -> CallMetadata {
    metadata(false, false, false, "outbound_sales")
}

fn run(ev: &mut ComplianceEvaluator, md: &CallMetadata, t: &str) -> EvaluationOutput {
    let rules = RuleSet::load_default().unwrap();
    ev.evaluate(md, t, &rules).unwrap()
}

fn ids(alerts: &[Alert]) -> Vec<String> {
    alerts.iter().map(|a| a.rule_id.clone()).collect()
}

const IDENTIFY: &str =
    "Identify yourself and your company: 'Hi, my name is [Name] calling from [Company Name].'";
const PURPOSE: &str = "Disclose the sales purpose: 'I'm calling today with a special offer for you.'";

#[test]
fn dnc_listed_call_with_request_gives_two_alerts() {
    let mut ev = ComplianceEvaluator::new();
    let md = metadata(true, false, false, "outbound_sales");
    let out = run(&mut ev, &md, "Hello, don't call me again");
    assert_eq!(ids(&out.alerts), vec!["DNC-001".to_string(), "DNC-003".to_string()]);
    assert_eq!(out.alerts[0].confidence, 90);
    assert_eq!(out.alerts[1].confidence, 95);
    assert_eq!(out.alerts[1].evidence.quote, "Number is on National DNC Registry (metadata flag)");
    assert_eq!(out.alerts[0].severity, "high");
}

#[test]
fn phrase_evidence_takes_thirty_characters_of_lookahead() {
    let mut ev = ComplianceEvaluator::new();
    let t = "Please STOP CALLING ME right now, thanks a lot for nothing at all";
    let out = run(&mut ev, &plain(), t);
    assert_eq!(ids(&out.alerts), vec!["DNC-001".to_string()]);
    let e = &out.alerts[0].evidence;
    assert_eq!(e.start_char, 7);
    assert_eq!(e.end_char, 22);
    let expected: String = t.chars().skip(7).take(15 + 30).collect();
    assert_eq!(e.quote, expected.trim());
    assert!(e.quote.to_lowercase().contains("stop calling me"));
}

#[test]
fn evidence_quote_is_trimmed_and_clipped() {
    let mut ev = ComplianceEvaluator::new();
    let out = run(&mut ev, &plain(), "no more calls   ");
    assert_eq!(out.alerts[0].evidence.quote, "no more calls");
}

#[test]
fn every_trigger_rule_alerts_on_its_phrase() {
    let rules = RuleSet::load_default().unwrap();
    for rule in &rules.rules {
        if rule.requires_metadata || rule.triggers.is_empty() {
            continue;
        }
        for trigger in &rule.triggers {
            let mut ev = ComplianceEvaluator::new();
            let md = plain();
            let prefix = if rule.id == "DNC-002" { "please stop calling me. " } else { "" };
            let t = format!("{}Well, {} okay", prefix, trigger);
            let out = ev.evaluate(&md, &t, &rules).unwrap();
            let hits: Vec<&Alert> = out.alerts.iter().filter(|a| a.rule_id == rule.id).collect();
            assert_eq!(hits.len(), 1, "rule {} trigger {}", rule.id, trigger);
            assert_eq!(hits[0].confidence, 90);
            assert!(hits[0].evidence.quote.to_lowercase().contains(&trigger.to_lowercase()));
        }
    }
}

#[test]
fn trigger_matching_ignores_case() {
    let mut ev = ComplianceEvaluator::new();
    let out = run(&mut ev, &plain(), "I WANT TO OPT OUT of this");
    assert_eq!(ids(&out.alerts), vec!["CONS-001".to_string()]);
    assert_eq!(out.alerts[0].confidence, 90);
}

#[test]
fn follow_up_waits_for_dnc_request() {
    let mut ev = ComplianceEvaluator::new();
    let md = plain();
    let out = run(&mut ev, &md, "but wait, there is more");
    assert!(out.alerts.is_empty());
    let out = run(&mut ev, &md, "but wait, there is more. Stop calling me!");
    assert_eq!(ids(&out.alerts), vec!["DNC-001".to_string(), "DNC-002".to_string()]);
}

#[test]
fn follow_up_alerts_after_request_in_earlier_turn() {
    let mut ev = ComplianceEvaluator::new();
    let md = plain();
    let out = run(&mut ev, &md, "Remove me from your list.");
    assert_eq!(ids(&out.alerts), vec!["DNC-001".to_string()]);
    let out = run(&mut ev, &md, "Remove me from your list. Are you sure?");
    assert_eq!(ids(&out.alerts), vec!["DNC-002".to_string()]);
}

#[test]
fn growing_transcript_never_repeats_a_rule() {
    let mut ev = ComplianceEvaluator::new();
    let md = metadata(true, false, true, "outbound_sales");
    let turns = [
        "Hi there.",
        "Hi there. Don't call me.",
        "Hi there. Don't call me. Before you go, I never agreed to this.",
        "Hi there. Don't call me. Before you go, I never agreed to this. Stop calling me!",
    ];
    let mut all: Vec<String> = Vec::new();
    let mut t = String::new();
    for turn in turns.iter() {
        t = turn.to_string();
        let out = run(&mut ev, &md, &t);
        for id in ids(&out.alerts) {
            assert!(!all.contains(&id), "repeated {}", id);
            all.push(id);
        }
    }
    assert!(t.len() > 0);
    assert_eq!(
        all,
        vec!["DNC-003", "PREC-001", "DNC-001", "DNC-002", "CONS-001"]
            .into_iter()
            .map(|s| s.to_string())
            .collect::<Vec<_>>()
    );
}

#[test]
fn disclosure_rules_never_alert() {
    let mut ev = ComplianceEvaluator::new();
    let t = "This is Pat calling from Acme with a special deal. This call may be recorded. You can reach us at 555-0100.";
    let out = run(&mut ev, &plain(), t);
    for a in &out.alerts {
        assert!(!["DISC-001", "DISC-002", "DISC-003", "IDENT-001", "REC-001"].contains(&a.rule_id.as_str()));
    }
    assert!(out.alerts.is_empty());
}

#[test]
fn contextual_suggestions_disappear_after_disclosure() {
    let mut ev = ComplianceEvaluator::new();
    let md = plain();
    let first = "Good afternoon! How are you doing today? I hope the weather is treating you well over there in your town.";
    assert!(first.len() > 100);
    let out = run(&mut ev, &md, first);
    let texts: Vec<String> = out.suggested_next_lines.iter().map(|s| s.text.clone()).collect();
    assert_eq!(texts, vec![IDENTIFY.to_string(), PURPOSE.to_string()]);
    assert!(out.suggested_next_lines.iter().all(|s| s.confidence == 80));
    let second = format!("{} My name is Pat with Acme.", first);
    let out = run(&mut ev, &md, &second);
    let texts: Vec<String> = out.suggested_next_lines.iter().map(|s| s.text.clone()).collect();
    assert_eq!(texts, vec![PURPOSE.to_string()]);
    let third = format!("{} I have a special offer.", second);
    let out = run(&mut ev, &md, &third);
    assert!(out.suggested_next_lines.is_empty());
}

#[test]
fn identity_and_purpose_disclosed_in_one_line() {
    let mut ev = ComplianceEvaluator::new();
    let t = "Hi, my name is Pat with Acme Corp. I'm calling today with a special offer.";
    let out = run(&mut ev, &plain(), t);
    assert!(out.alerts.is_empty());
    assert!(out.suggested_next_lines.iter().all(|s| s.text != IDENTIFY && s.text != PURPOSE));
    let longer = format!("{} It is a wonderful product that many of our customers love very much.", t);
    assert!(longer.len() > 100);
    let out = run(&mut ev, &plain(), &longer);
    assert!(out.suggested_next_lines.iter().all(|s| s.text != IDENTIFY && s.text != PURPOSE));
}

#[test]
fn contextual_suggestions_only_for_outbound_sales() {
    let mut ev = ComplianceEvaluator::new();
    let md = metadata(false, false, false, "inbound_support");
    let t = "Good afternoon! How are you doing today? I hope the weather is treating you well over there in your town.";
    let out = run(&mut ev, &md, t);
    assert!(out.suggested_next_lines.is_empty());
}

#[test]
fn national_registry_rule_follows_metadata() {
    for (dnc, consent, expect) in [(true, false, true), (true, true, false), (false, false, false), (false, true, false)] {
        for t in ["", "don't call me", "hello there"] {
            let mut ev = ComplianceEvaluator::new();
            let out = run(&mut ev, &metadata(dnc, consent, false, "outbound_sales"), t);
            assert_eq!(out.alerts.iter().any(|a| a.rule_id == "DNC-003"), expect);
        }
    }
}

#[test]
fn prerecorded_rule_follows_metadata() {
    for (pre, consent, expect) in [(true, false, true), (true, true, false), (false, false, false)] {
        let mut ev = ComplianceEvaluator::new();
        let out = run(&mut ev, &metadata(false, consent, pre, "outbound_sales"), "hello");
        let hit: Vec<&Alert> = out.alerts.iter().filter(|a| a.rule_id == "PREC-001").collect();
        assert_eq!(hit.len() == 1, expect);
        if expect {
            assert_eq!(hit[0].confidence, 95);
            assert_eq!(hit[0].evidence.start_char, 0);
            assert_eq!(hit[0].evidence.end_char, 0);
            assert_eq!(
                hit[0].evidence.quote,
                "Using prerecorded/artificial voice without consent (metadata flag)"
            );
        }
    }
}

#[test]
fn suggestions_are_capped_at_three() {
    let mut ev = ComplianceEvaluator::new();
    let md = metadata(true, false, true, "outbound_sales");
    let t = "Stop calling me. Are you sure? I never agreed. Lots of words here to make this transcript long enough for context.";
    let out = run(&mut ev, &md, t);
    assert!(out.alerts.len() >= 4);
    assert_eq!(out.suggested_next_lines.len(), 3);
    assert!(out.suggested_next_lines.iter().all(|s| s.confidence == 85));
}

#[test]
fn reset_lets_a_rule_fire_again() {
    let mut ev = ComplianceEvaluator::new();
    let md = plain();
    let out = run(&mut ev, &md, "never call again");
    assert_eq!(ids(&out.alerts), vec!["DNC-001".to_string()]);
    let out = run(&mut ev, &md, "never call again");
    assert!(out.alerts.is_empty());
    ev.reset();
    let out = run(&mut ev, &md, "never call again");
    assert_eq!(ids(&out.alerts), vec!["DNC-001".to_string()]);
}

#[test]
fn pattern_match_uses_character_offsets() {
    let mut ev = ComplianceEvaluator::new();
    let t = "é I didnt authorize anything";
    let out = run(&mut ev, &plain(), t);
    assert_eq!(ids(&out.alerts), vec!["CONS-001".to_string()]);
    let a = &out.alerts[0];
    assert_eq!(a.confidence, 85);
    assert_eq!(a.evidence.start_char, 4);
    assert_eq!(a.evidence.end_char, 19);
    assert_eq!(a.evidence.quote, "didnt authorize anything");
}

#[test]
fn alert_ids_are_fresh() {
    let mut ev = ComplianceEvaluator::new();
    let md = metadata(true, false, true, "outbound_sales");
    let out = run(&mut ev, &md, "hello");
    assert_eq!(out.alerts.len(), 2);
    assert!(!out.alerts[0].id.is_empty());
    assert_ne!(out.alerts[0].id, out.alerts[1].id);
}

#[test]
fn severity_labels() {
    assert_eq!(severity_to_string(&Severity::Low), "low");
    assert_eq!(severity_to_string(&Severity::Medium), "medium");
    assert_eq!(severity_to_string(&Severity::High), "high");
}

fn hosted_answer(n_suggestions: usize) -> LlmResponse {
    LlmResponse {
        alerts: vec![LlmAlert {
            rule_id: "CONS-001".to_string(),
            title: "Consent Revocation Detected".to_string(),
            severity: "high".to_string(),
            confidence: 77,
            evidence: LlmEvidence { quote: "opt me out".to_string(), start_char: 3, end_char: 13 },
            why_it_matters: "why".to_string(),
            agent_fix_suggestion: "fix".to_string(),
        }],
        suggested_next_lines: (0..n_suggestions)
            .map(|i| LlmSuggestion { text: format!("line {}", i), confidence: 60 + i as u8 })
            .collect(),
    }
}

#[test]
fn hosted_failure_falls_back_to_rules() {
    let rules = RuleSet::load_default().unwrap();
    let md = metadata(true, false, false, "outbound_sales");
    let t = "Hello, don't call me again";
    let mut fresh = ComplianceEvaluator::new();
    let expected = fresh.evaluate(&md, t, &rules).unwrap();
    let mut ev = ComplianceEvaluator::new();
    let r = evaluate_transcript(&mut ev, &rules, &md, t, Some(Err("expected value at line 1".to_string())));
    assert!(!r.llm_used);
    assert_eq!(ids(&r.alerts), ids(&expected.alerts));
    assert_eq!(r.alerts[0].evidence.quote, expected.alerts[0].evidence.quote);
    assert_eq!(r.suggested_next_lines.len(), expected.suggested_next_lines.len());
}

#[test]
fn no_hosted_answer_uses_rules() {
    let rules = RuleSet::load_default().unwrap();
    let mut ev = ComplianceEvaluator::new();
    let r = evaluate_transcript(&mut ev, &rules, &plain(), "stop calling me", None);
    assert!(!r.llm_used);
    assert_eq!(ids(&r.alerts), vec!["DNC-001".to_string()]);
    assert_eq!(r.evaluation_time_ms, 0);
}

#[test]
fn hosted_answer_is_normalised() {
    let rules = RuleSet::load_default().unwrap();
    let mut ev = ComplianceEvaluator::new();
    let r = evaluate_transcript(&mut ev, &rules, &plain(), "stop calling me", Some(Ok(hosted_answer(5))));
    assert!(r.llm_used);
    assert_eq!(ids(&r.alerts), vec!["CONS-001".to_string()]);
    assert_eq!(r.alerts[0].confidence, 77);
    assert_eq!(r.alerts[0].evidence.start_char, 3);
    assert!(!r.alerts[0].id.is_empty());
    let texts: Vec<String> = r.suggested_next_lines.iter().map(|s| s.text.clone()).collect();
    assert_eq!(texts, vec!["line 0", "line 1", "line 2"]);
    // The deterministic state was not touched: the rule still fires.
    let out = run(&mut ev, &plain(), "stop calling me");
    assert_eq!(ids(&out.alerts), vec!["DNC-001".to_string()]);
}

#[test]
fn normalise_keeps_short_suggestion_lists() {
    let out = normalize_response(&hosted_answer(2));
    assert_eq!(out.suggested_next_lines.len(), 2);
    assert_eq!(out.suggested_next_lines[1].confidence, 61);
    assert_eq!(out.alerts[0].evidence.quote, "opt me out");
}

#[test]
fn calling_time_rule_never_alerts() {
    let mut ev = ComplianceEvaluator::new();
    let out = run(&mut ev, &plain(), "It is eleven at night, sorry for the late call.");
    assert!(out.alerts.iter().all(|a| a.rule_id != "TIME-001"));
    assert!(out.alerts.is_empty());
}
