//! Records exchanged with the external alert store and its analytics.
use vstd::prelude::*;

verus! {

/// An alert as stored, with the context of its call.
#[derive(Debug, Clone)]
pub struct StoredAlert {
    pub id: String,
    pub call_id: String,
    pub agent_id: String,
    pub agent_name: String,
    pub rule_id: String,
    pub title: String,
    pub severity: String,
    pub confidence: u8,
    pub quote: String,
    pub start_char: usize,
    pub end_char: usize,
    pub why_it_matters: String,
    pub agent_fix_suggestion: String,
    pub created_at: String,
}

/// Aggregate counts over stored alerts.
#[derive(Debug, Clone)]
pub struct AnalyticsData {
    pub total_calls: u32,
    pub total_alerts: u32,
    pub alerts_by_severity: AlertsBySeverity,
    pub alerts_by_rule: Vec<RuleAlertCount>,
    pub alerts_by_agent: Vec<AgentAlertCount>,
    pub daily_trend: Vec<DailyAlertCount>,
}

/// Alert counts by severity.
#[derive(Debug, Clone, Copy)]
pub struct AlertsBySeverity {
    pub high: u32,
    pub medium: u32,
    pub low: u32,
}

/// Alert count of one rule.
#[derive(Debug, Clone)]
pub struct RuleAlertCount {
    pub rule_id: String,
    pub count: u32,
}

/// Alert count of one agent.
#[derive(Debug, Clone)]
pub struct AgentAlertCount {
    pub agent_id: String,
    pub agent_name: String,
    pub count: u32,
}

/// Alert count of one day.
#[derive(Debug, Clone)]
pub struct DailyAlertCount {
    pub date: String,
    pub count: u32,
}

} // verus!
