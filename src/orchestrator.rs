//! Chooses between the hosted and the deterministic evaluator for one
//! evaluation, falls back when the hosted one fails, and normalises either
//! result into the shared output schema.
use vstd::prelude::*;

use crate::evaluator::{
    evaluation, first_lines, line_view, new_alert_id, output_matches, Alert, ComplianceEvaluator,
    EvaluationOutput, Evidence, SuggestedLine, MAX_SUGGESTIONS,
};
use crate::hosted::{LlmAlert, LlmClient, LlmResponse, LlmSuggestion};
use crate::rules::RuleSet;
use crate::{CallMetadata, EvaluationResult};

verus! {

/// Alert `a` carries every field of the hosted alert `l` (its identifier is
/// fresh and not constrained).
pub open spec fn carries(a: Alert, l: LlmAlert) -> bool {
    &&& a.rule_id@ == l.rule_id@
    &&& a.title@ == l.title@
    &&& a.severity@ == l.severity@
    &&& a.confidence == l.confidence
    &&& a.evidence.quote@ == l.evidence.quote@
    &&& a.evidence.start_char == l.evidence.start_char
    &&& a.evidence.end_char == l.evidence.end_char
    &&& a.why_it_matters@ == l.why_it_matters@
    &&& a.agent_fix_suggestion@ == l.agent_fix_suggestion@
}

/// A hosted suggestion as text and confidence.
pub open spec fn hosted_line_view(s: LlmSuggestion) -> (Seq<char>, u8) {
    (s.text@, s.confidence)
}

/// `out` is the normalisation of the hosted answer `resp`: one alert per
/// hosted alert, in order, and the first suggestions, capped.
pub open spec fn normalizes(out: EvaluationOutput, resp: LlmResponse) -> bool {
    &&& out.alerts@.len() == resp.alerts@.len()
    &&& forall|k: int| 0 <= k < out.alerts@.len() ==> #[trigger] carries(out.alerts@[k], resp.alerts@[k])
    &&& out.suggested_next_lines@.map_values(|l: SuggestedLine| line_view(l)) == first_lines(
        resp.suggested_next_lines@.map_values(|s: LlmSuggestion| hosted_line_view(s)),
    )
}

/// Converts the hosted evaluator's answer into the shared schema, giving
/// each alert a fresh identifier and keeping at most `MAX_SUGGESTIONS`
/// suggestions.
pub fn normalize_response(resp: &LlmResponse) -> (out: EvaluationOutput)
    ensures
        normalizes(out, *resp),
        out.suggested_next_lines@.len() <= MAX_SUGGESTIONS,
{
    let mut alerts: Vec<Alert> = Vec::new();
    let mut i: usize = 0;
    while i < resp.alerts.len()
        invariant
            i <= resp.alerts.len(),
            alerts@.len() == i,
            forall|k: int| 0 <= k < i ==> #[trigger] carries(alerts@[k], resp.alerts@[k]),
        decreases resp.alerts.len() - i,
    {
        let a = &resp.alerts[i];
        alerts.push(
            Alert {
                id: new_alert_id(),
                rule_id: a.rule_id.clone(),
                title: a.title.clone(),
                severity: a.severity.clone(),
                confidence: a.confidence,
                evidence: Evidence {
                    quote: a.evidence.quote.clone(),
                    start_char: a.evidence.start_char,
                    end_char: a.evidence.end_char,
                },
                why_it_matters: a.why_it_matters.clone(),
                agent_fix_suggestion: a.agent_fix_suggestion.clone(),
            },
        );
        i = i + 1;
    }
    let ghost all = resp.suggested_next_lines@.map_values(|s: LlmSuggestion| hosted_line_view(s));
    let mut lines: Vec<SuggestedLine> = Vec::new();
    let mut j: usize = 0;
    while j < resp.suggested_next_lines.len() && j < MAX_SUGGESTIONS
        invariant
            j <= resp.suggested_next_lines.len(),
            j <= MAX_SUGGESTIONS,
            all == resp.suggested_next_lines@.map_values(|s: LlmSuggestion| hosted_line_view(s)),
            lines@.map_values(|l: SuggestedLine| line_view(l)) == all.take(j as int),
            lines@.len() == j,
        decreases resp.suggested_next_lines.len() - j,
    {
        let s = &resp.suggested_next_lines[j];
        let ghost before = lines@;
        lines.push(SuggestedLine { text: s.text.clone(), confidence: s.confidence });
        assert(all[j as int] == hosted_line_view(resp.suggested_next_lines@[j as int]));
        assert(lines@.map_values(|l: SuggestedLine| line_view(l)) =~= before.map_values(
            |l: SuggestedLine| line_view(l),
        ).push(all[j as int]));
        assert(all.take(j + 1) =~= all.take(j as int).push(all[j as int]));
        j = j + 1;
    }
    assert(lines@.map_values(|l: SuggestedLine| line_view(l)) =~= first_lines(all));
    EvaluationOutput { alerts, suggested_next_lines: lines }
}

/// Whether this evaluation should go to the hosted evaluator: the caller
/// asked for it and the provider is marked available.
pub fn hosted_requested(use_llm: bool, client: &LlmClient) -> (r: bool)
    ensures
        r == (use_llm && client@.enabled),
{
    use_llm && client.is_enabled()
}

/// The output part of an evaluation result.
pub open spec fn output_of(r: EvaluationResult) -> EvaluationOutput {
    EvaluationOutput { alerts: r.alerts, suggested_next_lines: r.suggested_next_lines }
}

/// Completes one evaluation. `hosted` is the hosted evaluator's answer when
/// it was consulted: a usable answer is normalised and reported as hosted;
/// a failure, or no consultation, falls back to the deterministic evaluator,
/// which alone updates the conversation state. The elapsed time is left at
/// zero for the caller that measured it.
pub fn evaluate_transcript(
    evaluator: &mut ComplianceEvaluator,
    rules: &RuleSet,
    metadata: &CallMetadata,
    transcript: &str,
    hosted: Option<Result<LlmResponse, String>>,
) -> (r: EvaluationResult)
    ensures
        r.evaluation_time_ms == 0,
        r.suggested_next_lines@.len() <= MAX_SUGGESTIONS,
        match hosted {
            Some(Ok(resp)) => {
                &&& r.llm_used
                &&& normalizes(output_of(r), resp)
                &&& final(evaluator).state() == old(evaluator).state()
            },
            _ => {
                &&& !r.llm_used
                &&& output_matches(
                    output_of(r),
                    *metadata,
                    transcript@,
                    evaluation(*metadata, transcript@, rules.rules@, old(evaluator).state()),
                )
                &&& final(evaluator).state() == evaluation(
                    *metadata,
                    transcript@,
                    rules.rules@,
                    old(evaluator).state(),
                ).0
            },
        },
{
    match hosted {
        Some(Ok(resp)) => {
            let out = normalize_response(&resp);
            EvaluationResult {
                alerts: out.alerts,
                suggested_next_lines: out.suggested_next_lines,
                evaluation_time_ms: 0,
                llm_used: true,
            }
        },
        _ => {
            let out = evaluator.evaluate(metadata, transcript, rules).unwrap();
            EvaluationResult {
                alerts: out.alerts,
                suggested_next_lines: out.suggested_next_lines,
                evaluation_time_ms: 0,
                llm_used: false,
            }
        },
    }
}

} // verus!
