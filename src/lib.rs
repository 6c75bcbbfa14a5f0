//! Real-time compliance evaluation of call transcripts against a fixed
//! catalog of telemarketing rules.
use vstd::prelude::*;

pub mod evaluator;
pub mod hosted;
pub mod orchestrator;
pub mod records;
pub mod rules;
pub mod text;
pub mod theorems;

pub use evaluator::{Alert, ComplianceEvaluator, EvaluationOutput, Evidence, SuggestedLine};
pub use hosted::{LlmAlert, LlmClient, LlmEvidence, LlmResponse, LlmSuggestion};
pub use rules::{Rule, RuleCategory, RuleSet, Severity};

verus! {

/// Call metadata that accompanies a transcript during evaluation.
#[derive(Debug, Clone)]
pub struct CallMetadata {
    pub call_id: String,
    pub agent_id: String,
    pub agent_name: String,
    pub call_start_time: String,
    pub caller_timezone: Option<String>,
    pub customer_phone: Option<String>,
    pub is_dnc_listed: bool,
    pub has_prior_consent: bool,
    pub is_prerecorded: bool,
    pub call_type: String,
}

/// A transcript segment delivered during real-time processing.
#[derive(Debug, Clone)]
pub struct TranscriptSegment {
    pub id: String,
    pub speaker: String,
    pub text: String,
    pub timestamp_ms: u64,
    pub start_char: usize,
    pub end_char: usize,
}

/// The result of one evaluation, as returned to the surrounding application.
#[derive(Debug, Clone)]
pub struct EvaluationResult {
    pub alerts: Vec<Alert>,
    pub suggested_next_lines: Vec<SuggestedLine>,
    pub evaluation_time_ms: u64,
    pub llm_used: bool,
}

/// Availability of the hosted evaluator, as reported to the application.
#[derive(Debug, Clone)]
pub struct LlmStatus {
    pub available: bool,
    pub model: String,
    pub endpoint: String,
}

} // verus!
