//! The deterministic rule evaluator and the per-call conversation state it
//! maintains across evaluations of a growing transcript.
use vstd::prelude::*;

use crate::rules::{Rule, RuleSet, Severity};
use crate::text::{
    byte_to_char_index, char_index_at_byte, chars_of, evidence_quote, find_chars,
    first_occurrence, lower_of, occurs_at, lowercase, quote_evidence, regex_find, regex_find_of, same_text,
};
use crate::CallMetadata;

verus! {

/// Evidence for an alert: a quote and the offsets of the match.
#[derive(Debug, Clone)]
pub struct Evidence {
    pub quote: String,
    pub start_char: usize,
    pub end_char: usize,
}

/// A compliance alert.
#[derive(Debug, Clone)]
pub struct Alert {
    pub id: String,
    pub rule_id: String,
    pub title: String,
    pub severity: String,
    pub confidence: u8,
    pub evidence: Evidence,
    pub why_it_matters: String,
    pub agent_fix_suggestion: String,
}

/// A line suggested to the agent.
#[derive(Debug, Clone)]
pub struct SuggestedLine {
    pub text: String,
    pub confidence: u8,
}

/// The alerts and suggestions of one evaluation.
#[derive(Debug, Clone)]
pub struct EvaluationOutput {
    pub alerts: Vec<Alert>,
    pub suggested_next_lines: Vec<SuggestedLine>,
}

/// Which required disclosures have been observed in the call so far.
#[derive(Debug, Clone, Copy, PartialEq, Eq, Structural)]
pub struct DisclosureState {
    pub seller_identified: bool,
    pub sales_purpose_stated: bool,
    pub product_described: bool,
    pub callback_provided: bool,
    pub recording_disclosed: bool,
}

/// Cross-turn facts of one call.
#[derive(Debug, Clone)]
pub struct ConversationState {
    pub dnc_requested: bool,
    pub consent_revoked: bool,
    pub disclosures: DisclosureState,
    pub seen_alerts: Vec<String>,
}

/// The model of a conversation state: its flags and the ids of the rules
/// that have alerted, in the order they alerted.
pub struct StateView {
    pub dnc_requested: bool,
    pub consent_revoked: bool,
    pub disclosures: DisclosureState,
    pub fired: Seq<Seq<char>>,
}

impl View for ConversationState {
    type V = StateView;

    open spec fn view(&self) -> StateView {
        StateView {
            dnc_requested: self.dnc_requested,
            consent_revoked: self.consent_revoked,
            disclosures: self.disclosures,
            fired: self.seen_alerts@.map_values(|s: String| s@),
        }
    }
}

/// The state of a call that has just started.
pub open spec fn initial_state() -> StateView {
    StateView {
        dnc_requested: false,
        consent_revoked: false,
        disclosures: DisclosureState {
            seller_identified: false,
            sales_purpose_stated: false,
            product_described: false,
            callback_provided: false,
            recording_disclosed: false,
        },
        fired: Seq::empty(),
    }
}

/// A disclosure that a detector rule records.
#[derive(Debug, Clone, Copy, PartialEq, Eq, Structural)]
pub enum Disclosure {
    SellerIdentity,
    SalesPurpose,
    ProductDescription,
    CallbackNumber,
    RecordingNotice,
}

/// What a match of a rule does to the conversation state, and whether it
/// alerts.
#[derive(Debug, Clone, Copy, PartialEq, Eq, Structural)]
pub enum RuleEffect {
    /// Alerts, with no state change.
    Plain,
    /// Records a do-not-call request, then alerts.
    RecordDncRequest,
    /// Alerts only once a do-not-call request has been recorded.
    RequireDncRequest,
    /// Records a consent revocation, then alerts.
    RecordConsentRevoked,
    /// Records a disclosure; never alerts.
    Detect(Disclosure),
}

/// The effect of a match of the rule with id `id`.
pub open spec fn effect_of(id: Seq<char>) -> RuleEffect {
    if id == "DNC-001"@ {
        RuleEffect::RecordDncRequest
    } else if id == "DNC-002"@ {
        RuleEffect::RequireDncRequest
    } else if id == "CONS-001"@ {
        RuleEffect::RecordConsentRevoked
    } else if id == "DISC-001"@ {
        RuleEffect::Detect(Disclosure::SellerIdentity)
    } else if id == "DISC-002"@ {
        RuleEffect::Detect(Disclosure::SalesPurpose)
    } else if id == "DISC-003"@ {
        RuleEffect::Detect(Disclosure::ProductDescription)
    } else if id == "IDENT-001"@ {
        RuleEffect::Detect(Disclosure::CallbackNumber)
    } else if id == "REC-001"@ {
        RuleEffect::Detect(Disclosure::RecordingNotice)
    } else {
        RuleEffect::Plain
    }
}

/// Whether the metadata-driven rule with id `id` alerts for `md`. The
/// calling-time rule is declared but its check is not implemented yet, so it
/// never alerts.
pub open spec fn metadata_alerts(md: CallMetadata, id: Seq<char>) -> bool {
    if id == "DNC-003"@ {
        md.is_dnc_listed && !md.has_prior_consent
    } else if id == "PREC-001"@ {
        md.is_prerecorded && !md.has_prior_consent
    } else {
        false
    }
}

/// How a rule was matched.
#[derive(Debug, Clone, Copy, PartialEq, Eq, Structural)]
pub enum MatchKind {
    Phrase,
    Pattern,
    Metadata,
}

/// A match of a rule: its kind and its character span in the lower-cased
/// transcript (empty at zero for metadata matches).
#[derive(Debug, Clone, Copy, PartialEq, Eq, Structural)]
pub struct Found {
    pub kind: MatchKind,
    pub start: usize,
    pub end: usize,
}

/// The first trigger phrase of `ts` at or after index `i` that occurs in the
/// lower-cased transcript `lt`, compared lower-cased, with the span it covers.
pub open spec fn phrase_hit_from(lt: Seq<char>, ts: Seq<String>, i: int) -> Option<Found>
    decreases ts.len() - i,
{
    if i < 0 || i >= ts.len() {
        None
    } else {
        let needle = lower_of(ts[i]@);
        match first_occurrence(lt, needle) {
            Some(p) => Some(
                Found { kind: MatchKind::Phrase, start: p as usize, end: (p + needle.len()) as usize },
            ),
            None => phrase_hit_from(lt, ts, i + 1),
        }
    }
}

/// The first pattern of `ps` at or after index `i` that matches `lt`, with the
/// character span of its match.
pub open spec fn pattern_hit_from(lt: Seq<char>, ps: Seq<String>, i: int) -> Option<Found>
    decreases ps.len() - i,
{
    if i < 0 || i >= ps.len() {
        None
    } else {
        match regex_find_of(ps[i]@, lt) {
            Some((bs, be)) => Some(
                Found {
                    kind: MatchKind::Pattern,
                    start: char_index_at_byte(lt, bs as int) as usize,
                    end: char_index_at_byte(lt, be as int) as usize,
                },
            ),
            None => pattern_hit_from(lt, ps, i + 1),
        }
    }
}

/// The transcript match of rule `r`: its trigger phrases first, then its
/// patterns, each in declared order.
pub open spec fn text_hit(lt: Seq<char>, r: Rule) -> Option<Found> {
    match phrase_hit_from(lt, r.triggers@, 0) {
        Some(f) => Some(f),
        None => pattern_hit_from(lt, r.regex_patterns@, 0),
    }
}

/// `st` with `id` recorded as having alerted.
pub open spec fn record_alert(st: StateView, id: Seq<char>) -> StateView {
    StateView { fired: st.fired.push(id), ..st }
}

/// `st` with disclosure `d` recorded.
pub open spec fn record_disclosure(st: StateView, d: Disclosure) -> StateView {
    let ds = st.disclosures;
    StateView {
        disclosures: match d {
            Disclosure::SellerIdentity => DisclosureState { seller_identified: true, ..ds },
            Disclosure::SalesPurpose => DisclosureState { sales_purpose_stated: true, ..ds },
            Disclosure::ProductDescription => DisclosureState { product_described: true, ..ds },
            Disclosure::CallbackNumber => DisclosureState { callback_provided: true, ..ds },
            Disclosure::RecordingNotice => DisclosureState { recording_disclosed: true, ..ds },
        },
        ..st
    }
}

/// What a match `f` of the rule with id `id` does: the next state, and the
/// match again when it alerts.
pub open spec fn apply_effect(st: StateView, id: Seq<char>, f: Found) -> (StateView, Option<Found>) {
    match effect_of(id) {
        RuleEffect::Plain => (record_alert(st, id), Some(f)),
        RuleEffect::RecordDncRequest => (
            record_alert(StateView { dnc_requested: true, ..st }, id),
            Some(f),
        ),
        RuleEffect::RequireDncRequest => if st.dnc_requested {
            (record_alert(st, id), Some(f))
        } else {
            (st, None)
        },
        RuleEffect::RecordConsentRevoked => (
            record_alert(StateView { consent_revoked: true, ..st }, id),
            Some(f),
        ),
        RuleEffect::Detect(d) => (record_disclosure(st, d), None),
    }
}

/// One rule's turn in an evaluation: the next state, and the match when the
/// rule alerts. Disabled rules and rules that already alerted are skipped.
pub open spec fn rule_step(md: CallMetadata, lt: Seq<char>, r: Rule, st: StateView) -> (
    StateView,
    Option<Found>,
) {
    if !r.enabled || st.fired.contains(r.id@) {
        (st, None)
    } else if r.requires_metadata {
        if metadata_alerts(md, r.id@) {
            (record_alert(st, r.id@), Some(Found { kind: MatchKind::Metadata, start: 0, end: 0 }))
        } else {
            (st, None)
        }
    } else {
        match text_hit(lt, r) {
            None => (st, None),
            Some(f) => apply_effect(st, r.id@, f),
        }
    }
}

/// A full pass over the rules `rs` in order: the final state and the rules
/// that alerted, each with its match, in order.
pub open spec fn pass(md: CallMetadata, lt: Seq<char>, rs: Seq<Rule>, st: StateView) -> (
    StateView,
    Seq<(Rule, Found)>,
)
    decreases rs.len(),
{
    if rs.len() == 0 {
        (st, Seq::empty())
    } else {
        let prev = pass(md, lt, rs.drop_last(), st);
        let step = rule_step(md, lt, rs.last(), prev.0);
        match step.1 {
            Some(f) => (step.0, prev.1.push((rs.last(), f))),
            None => (step.0, prev.1),
        }
    }
}

/// Confidence of an alert by how its rule matched.
pub open spec fn confidence_of(k: MatchKind) -> u8 {
    match k {
        MatchKind::Phrase => 90,
        MatchKind::Pattern => 85,
        MatchKind::Metadata => 95,
    }
}

/// The lower-case severity label carried by alerts.
pub open spec fn severity_label(s: Severity) -> Seq<char> {
    match s {
        Severity::Low => "low"@,
        Severity::Medium => "medium"@,
        Severity::High => "high"@,
    }
}

/// The evidence quote of a metadata alert of the rule with id `id`.
pub open spec fn metadata_quote(id: Seq<char>) -> Seq<char> {
    if id == "DNC-003"@ {
        "Number is on National DNC Registry (metadata flag)"@
    } else {
        "Using prerecorded/artificial voice without consent (metadata flag)"@
    }
}

/// The evidence quote for match `f` of rule `r` in transcript `t`: 30
/// characters of lookahead for a phrase, 20 for a pattern.
pub open spec fn quote_for(t: Seq<char>, r: Rule, f: Found) -> Seq<char> {
    match f.kind {
        MatchKind::Phrase => evidence_quote(t, f.start as int, f.end as int, 30),
        MatchKind::Pattern => evidence_quote(t, f.start as int, f.end as int, 20),
        MatchKind::Metadata => metadata_quote(r.id@),
    }
}

/// Alert `a` reports match `f` of rule `r` in transcript `t` (its identifier
/// is fresh and not constrained).
pub open spec fn alert_reports(a: Alert, t: Seq<char>, r: Rule, f: Found) -> bool {
    &&& a.rule_id@ == r.id@
    &&& a.title@ == r.title@
    &&& a.severity@ == severity_label(r.severity)
    &&& a.confidence == confidence_of(f.kind)
    &&& a.evidence.quote@ == quote_for(t, r, f)
    &&& a.evidence.start_char == f.start
    &&& a.evidence.end_char == f.end
    &&& a.why_it_matters@ == r.why_it_matters@
    &&& a.agent_fix_suggestion@ == r.recommended_fix@
}

/// `alerts` report the matches `fired`, one for one and in order.
pub open spec fn alerts_report(alerts: Seq<Alert>, t: Seq<char>, fired: Seq<(Rule, Found)>) -> bool {
    &&& alerts.len() == fired.len()
    &&& forall|k: int|
        0 <= k < alerts.len() ==> #[trigger] alert_reports(alerts[k], t, fired[k].0, fired[k].1)
}

/// A suggestion as text and confidence.
pub open spec fn line_view(s: SuggestedLine) -> (Seq<char>, u8) {
    (s.text@, s.confidence)
}

/// The remediation suggestions of the alerting rules `fired`, in order; rules
/// with an empty remediation contribute none.
pub open spec fn remediation_lines(fired: Seq<(Rule, Found)>) -> Seq<(Seq<char>, u8)>
    decreases fired.len(),
{
    if fired.len() == 0 {
        Seq::empty()
    } else {
        let prev = remediation_lines(fired.drop_last());
        let fix = fired.last().0.recommended_fix@;
        if fix.len() > 0 {
            prev.push((fix, 85u8))
        } else {
            prev
        }
    }
}

/// The generic suggestion to identify the seller.
pub open spec fn identify_line() -> Seq<char> {
    "Identify yourself and your company: 'Hi, my name is [Name] calling from [Company Name].'"@
}

/// The generic suggestion to state the sales purpose.
pub open spec fn purpose_line() -> Seq<char> {
    "Disclose the sales purpose: 'I'm calling today with a special offer for you.'"@
}

/// Whether contextual disclosure suggestions apply: an outbound sales call
/// whose transcript is longer than 100 bytes (its byte length as `str::len`
/// reports it).
pub open spec fn contextual_applies(md: CallMetadata, t: Seq<char>) -> bool {
    md.call_type@ == "outbound_sales"@ && (vstd::utf8::encode_utf8(t).len() as usize) > 100
}

/// The contextual suggestions for disclosures still missing in `st`.
pub open spec fn contextual_lines(md: CallMetadata, t: Seq<char>, st: StateView) -> Seq<(Seq<char>, u8)> {
    if contextual_applies(md, t) {
        let a: Seq<(Seq<char>, u8)> = if !st.disclosures.seller_identified {
            seq![(identify_line(), 80u8)]
        } else {
            Seq::empty()
        };
        let b: Seq<(Seq<char>, u8)> = if !st.disclosures.sales_purpose_stated {
            seq![(purpose_line(), 80u8)]
        } else {
            Seq::empty()
        };
        a + b
    } else {
        Seq::empty()
    }
}

/// The most suggestions one evaluation returns.
pub const MAX_SUGGESTIONS: usize = 3;

/// At most the first `MAX_SUGGESTIONS` of `s`.
pub open spec fn first_lines(s: Seq<(Seq<char>, u8)>) -> Seq<(Seq<char>, u8)> {
    if s.len() > MAX_SUGGESTIONS {
        s.take(MAX_SUGGESTIONS as int)
    } else {
        s
    }
}

/// The suggestions of an evaluation whose pass alerted `fired` and ended in
/// state `st`: remediations first, then contextual lines, capped.
pub open spec fn suggestions_for(
    md: CallMetadata,
    t: Seq<char>,
    fired: Seq<(Rule, Found)>,
    st: StateView,
) -> Seq<(Seq<char>, u8)> {
    first_lines(remediation_lines(fired) + contextual_lines(md, t, st))
}


/// The effect of a match of the rule with id `id`.
fn rule_effect(id: &str) -> (r: RuleEffect)
    ensures
        r == effect_of(id@),
{
    if same_text(id, "DNC-001") {
        RuleEffect::RecordDncRequest
    } else if same_text(id, "DNC-002") {
        RuleEffect::RequireDncRequest
    } else if same_text(id, "CONS-001") {
        RuleEffect::RecordConsentRevoked
    } else if same_text(id, "DISC-001") {
        RuleEffect::Detect(Disclosure::SellerIdentity)
    } else if same_text(id, "DISC-002") {
        RuleEffect::Detect(Disclosure::SalesPurpose)
    } else if same_text(id, "DISC-003") {
        RuleEffect::Detect(Disclosure::ProductDescription)
    } else if same_text(id, "IDENT-001") {
        RuleEffect::Detect(Disclosure::CallbackNumber)
    } else if same_text(id, "REC-001") {
        RuleEffect::Detect(Disclosure::RecordingNotice)
    } else {
        RuleEffect::Plain
    }
}

/// Whether the metadata-driven rule with id `id` alerts for `md`.
fn check_metadata_rule(md: &CallMetadata, id: &str) -> (r: bool)
    ensures
        r == metadata_alerts(*md, id@),
{
    if same_text(id, "DNC-003") {
        md.is_dnc_listed && !md.has_prior_consent
    } else if same_text(id, "PREC-001") {
        md.is_prerecorded && !md.has_prior_consent
    } else {
        false
    }
}

/// Whether `ids` holds `id`.
fn contains_id(ids: &Vec<String>, id: &str) -> (r: bool)
    ensures
        r == ids@.map_values(|s: String| s@).contains(id@),
{
    let mut i: usize = 0;
    while i < ids.len()
        invariant
            i <= ids.len(),
            forall|j: int| 0 <= j < i ==> ids@[j]@ != id@,
        decreases ids.len() - i,
    {
        if same_text(ids[i].as_str(), id) {
            assert(ids@.map_values(|s: String| s@)[i as int] == id@);
            return true;
        }
        i = i + 1;
    }
    false
}

/// The first trigger phrase of `ts` that occurs in `lt`.
fn phrase_hit(lt: &Vec<char>, ts: &Vec<String>) -> (r: Option<Found>)
    ensures
        r == phrase_hit_from(lt@, ts@, 0),
{
    let mut i: usize = 0;
    while i < ts.len()
        invariant
            i <= ts.len(),
            phrase_hit_from(lt@, ts@, 0) == phrase_hit_from(lt@, ts@, i as int),
        decreases ts.len() - i,
    {
        let needle_text = lowercase(ts[i].as_str());
        let needle = chars_of(needle_text.as_str());
        match find_chars(lt, &needle) {
            Some(p) => {
                assert(occurs_at(lt@, needle@, p as int));
                assert(p + needle.len() <= lt.len());
                return Some(Found { kind: MatchKind::Phrase, start: p, end: p + needle.len() });
            },
            None => {},
        }
        i = i + 1;
    }
    None
}

/// The first pattern of `ps` that matches `lower`, whose characters are `lt`.
fn pattern_hit(lower: &str, lt: &Vec<char>, ps: &Vec<String>) -> (r: Option<Found>)
    requires
        lower@ == lt@,
    ensures
        r == pattern_hit_from(lt@, ps@, 0),
{
    let mut i: usize = 0;
    while i < ps.len()
        invariant
            i <= ps.len(),
            lower@ == lt@,
            pattern_hit_from(lt@, ps@, 0) == pattern_hit_from(lt@, ps@, i as int),
        decreases ps.len() - i,
    {
        match regex_find(ps[i].as_str(), lower) {
            Some((bs, be)) => {
                let start = byte_to_char_index(lt, bs);
                let end = byte_to_char_index(lt, be);
                return Some(Found { kind: MatchKind::Pattern, start, end });
            },
            None => {},
        }
        i = i + 1;
    }
    None
}

impl ConversationState {
    /// A state with no flag set and no rule alerted.
    pub fn new() -> (r: Self)
        ensures
            r@ == initial_state(),
    {
        let r = ConversationState {
            dnc_requested: false,
            consent_revoked: false,
            disclosures: DisclosureState {
                seller_identified: false,
                sales_purpose_stated: false,
                product_described: false,
                callback_provided: false,
                recording_disclosed: false,
            },
            seen_alerts: Vec::new(),
        };
        assert(r@.fired =~= Seq::<Seq<char>>::empty());
        r
    }

    fn record_alert(&mut self, id: &String)
        ensures
            final(self)@ == record_alert(old(self)@, id@),
    {
        let ghost before = self@;
        self.seen_alerts.push(id.clone());
        assert(self@.fired =~= before.fired.push(id@));
    }

    fn record_disclosure(&mut self, d: Disclosure)
        ensures
            final(self)@ == record_disclosure(old(self)@, d),
    {
        match d {
            Disclosure::SellerIdentity => self.disclosures.seller_identified = true,
            Disclosure::SalesPurpose => self.disclosures.sales_purpose_stated = true,
            Disclosure::ProductDescription => self.disclosures.product_described = true,
            Disclosure::CallbackNumber => self.disclosures.callback_provided = true,
            Disclosure::RecordingNotice => self.disclosures.recording_disclosed = true,
        }
    }

    /// One rule's turn: updates the state and reports the match when the rule
    /// alerts.
    fn check_rule(
        &mut self,
        md: &CallMetadata,
        lower: &str,
        lt: &Vec<char>,
        rule: &Rule,
    ) -> (r: Option<Found>)
        requires
            lower@ == lt@,
        ensures
            (final(self)@, r) == rule_step(*md, lt@, *rule, old(self)@),
    {
        if !rule.enabled || contains_id(&self.seen_alerts, rule.id.as_str()) {
            return None;
        }
        if rule.requires_metadata {
            if check_metadata_rule(md, rule.id.as_str()) {
                self.record_alert(&rule.id);
                return Some(Found { kind: MatchKind::Metadata, start: 0, end: 0 });
            }
            return None;
        }
        let found = match phrase_hit(lt, &rule.triggers) {
            Some(f) => f,
            None => match pattern_hit(lower, lt, &rule.regex_patterns) {
                Some(f) => f,
                None => {
                    return None;
                },
            },
        };
        match rule_effect(rule.id.as_str()) {
            RuleEffect::Plain => {
                self.record_alert(&rule.id);
                Some(found)
            },
            RuleEffect::RecordDncRequest => {
                self.dnc_requested = true;
                self.record_alert(&rule.id);
                Some(found)
            },
            RuleEffect::RequireDncRequest => {
                if self.dnc_requested {
                    self.record_alert(&rule.id);
                    Some(found)
                } else {
                    None
                }
            },
            RuleEffect::RecordConsentRevoked => {
                self.consent_revoked = true;
                self.record_alert(&rule.id);
                Some(found)
            },
            RuleEffect::Detect(d) => {
                self.record_disclosure(d);
                None
            },
        }
    }
}


/// The lower-case label of a severity, as alerts carry it.
pub fn severity_to_string(severity: &Severity) -> (r: String)
    ensures
        r@ == severity_label(*severity),
{
    match severity {
        Severity::Low => "low".to_string(),
        Severity::Medium => "medium".to_string(),
        Severity::High => "high".to_string(),
    }
}

/// Relies on `uuid::Uuid::new_v4` and its `Display` impl: a freshly drawn
/// random identifier. Nothing is promised of its value.
#[verifier::external_body]
pub(crate) fn new_alert_id() -> String {
    uuid::Uuid::new_v4().to_string()
}

/// Builds the alert for match `f` of `rule` in `transcript`, whose length in
/// characters is `len`.
fn make_alert(transcript: &str, len: usize, rule: &Rule, f: Found) -> (a: Alert)
    requires
        len == transcript@.len(),
    ensures
        alert_reports(a, transcript@, *rule, f),
{
    let (quote, confidence) = match f.kind {
        MatchKind::Phrase => (quote_evidence(transcript, len, f.start, f.end, 30), 90u8),
        MatchKind::Pattern => (quote_evidence(transcript, len, f.start, f.end, 20), 85u8),
        MatchKind::Metadata => {
            let q = if same_text(rule.id.as_str(), "DNC-003") {
                "Number is on National DNC Registry (metadata flag)".to_string()
            } else {
                "Using prerecorded/artificial voice without consent (metadata flag)".to_string()
            };
            (q, 95u8)
        },
    };
    Alert {
        id: new_alert_id(),
        rule_id: rule.id.clone(),
        title: rule.title.clone(),
        severity: severity_to_string(&rule.severity),
        confidence,
        evidence: Evidence { quote, start_char: f.start, end_char: f.end },
        why_it_matters: rule.why_it_matters.clone(),
        agent_fix_suggestion: rule.recommended_fix.clone(),
    }
}

/// The final state and the alerting rules, with their matches, of evaluating
/// `transcript` under `md` against the catalog `rules` from state `st`.
pub open spec fn evaluation(md: CallMetadata, transcript: Seq<char>, rules: Seq<Rule>, st: StateView) -> (
    StateView,
    Seq<(Rule, Found)>,
) {
    pass(md, lower_of(transcript), rules, st)
}

/// The output of an evaluation is exactly the one that the model gives:
/// alerts for the alerting rules, in catalog order, and the capped
/// suggestions.
pub open spec fn output_matches(
    out: EvaluationOutput,
    md: CallMetadata,
    transcript: Seq<char>,
    outcome: (StateView, Seq<(Rule, Found)>),
) -> bool {
    &&& alerts_report(out.alerts@, transcript, outcome.1)
    &&& out.suggested_next_lines@.map_values(|l: SuggestedLine| line_view(l)) == suggestions_for(
        md,
        transcript,
        outcome.1,
        outcome.0,
    )
}

/// The evaluator of one call, owning its conversation state.
pub struct ComplianceEvaluator {
    state: ConversationState,
}


impl ComplianceEvaluator {
    /// The model of this evaluator's conversation state.
    pub closed spec fn state(&self) -> StateView {
        self.state@
    }

    /// An evaluator for a call that has just started.
    pub fn new() -> (r: Self)
        ensures
            r.state() == initial_state(),
    {
        ComplianceEvaluator { state: ConversationState::new() }
    }

    /// Clears the conversation state, at the start of a call or on request.
    pub fn reset(&mut self)
        ensures
            final(self).state() == initial_state(),
    {
        self.state = ConversationState::new();
    }

    /// Evaluates the whole transcript so far against the enabled rules of
    /// `rules`, in catalog order, updating the conversation state. A rule
    /// that alerted earlier in the call is not reported again.
    pub fn evaluate(&mut self, metadata: &CallMetadata, transcript: &str, rules: &RuleSet) -> (r:
        Result<EvaluationOutput, String>)
        ensures
            final(self).state() == evaluation(*metadata, transcript@, rules.rules@, old(self).state()).0,
            r matches Ok(out) && out.suggested_next_lines@.len() <= MAX_SUGGESTIONS,
            r matches Ok(out) && output_matches(
                out,
                *metadata,
                transcript@,
                evaluation(*metadata, transcript@, rules.rules@, old(self).state()),
            ),
    {
        let lower = lowercase(transcript);
        let lt = chars_of(lower.as_str());
        let len = transcript.unicode_len();
        let ghost st0 = self.state@;
        let ghost rs = rules.rules@;
        let mut alerts: Vec<Alert> = Vec::new();
        let mut lines: Vec<SuggestedLine> = Vec::new();
        let mut i: usize = 0;
        while i < rules.rules.len()
            invariant
                i <= rs.len(),
                rs == rules.rules@,
                lower@ == lt@,
                lt@ == lower_of(transcript@),
                len == transcript@.len(),
                self.state@ == pass(*metadata, lt@, rs.take(i as int), st0).0,
                alerts_report(alerts@, transcript@, pass(*metadata, lt@, rs.take(i as int), st0).1),
                lines@.map_values(|l: SuggestedLine| line_view(l)) == remediation_lines(
                    pass(*metadata, lt@, rs.take(i as int), st0).1,
                ),
            decreases rs.len() - i,
        {
            proof {
                assert(rs.take(i + 1).drop_last() =~= rs.take(i as int));
                assert(rs.take(i + 1).last() == rs[i as int]);
            }
            let ghost prev = pass(*metadata, lt@, rs.take(i as int), st0);
            let rule = &rules.rules[i];
            match self.state.check_rule(metadata, lower.as_str(), &lt, rule) {
                Some(f) => {
                    let alert = make_alert(transcript, len, rule, f);
                    let ghost alerts_before = alerts@;
                    alerts.push(alert);
                    let ghost fired = prev.1.push((*rule, f));
                    assert(alerts_report(alerts@, transcript@, fired)) by {
                        assert forall|k: int| 0 <= k < alerts@.len() implies #[trigger] alert_reports(
                            alerts@[k],
                            transcript@,
                            fired[k].0,
                            fired[k].1,
                        ) by {
                            if k < alerts_before.len() {
                                assert(alerts@[k] == alerts_before[k]);
                                assert(alert_reports(
                                    alerts_before[k],
                                    transcript@,
                                    prev.1[k].0,
                                    prev.1[k].1,
                                ));
                            }
                        }
                    }
                    assert(fired.drop_last() =~= prev.1);
                    if !rule.recommended_fix.as_str().is_empty() {
                        let ghost lines_before = lines@;
                        lines.push(SuggestedLine { text: rule.recommended_fix.clone(), confidence: 85 });
                        assert(lines@.map_values(|l: SuggestedLine| line_view(l)) =~= lines_before.map_values(
                            |l: SuggestedLine| line_view(l),
                        ).push((rule.recommended_fix@, 85u8)));
                    }
                },
                None => {},
            }
            i = i + 1;
        }
        proof {
            assert(rs.take(rs.len() as int) =~= rs);
        }
        let ghost fired = pass(*metadata, lt@, rs, st0).1;
        let ghost rem = lines@.map_values(|l: SuggestedLine| line_view(l));
        let applies = same_text(metadata.call_type.as_str(), "outbound_sales") && transcript.len()
            > 100;
        assert(applies == contextual_applies(*metadata, transcript@));
        if applies {
            if !self.state.disclosures.seller_identified {
                lines.push(
                    SuggestedLine {
                        text: "Identify yourself and your company: 'Hi, my name is [Name] calling from [Company Name].'".to_string(),
                        confidence: 80,
                    },
                );
            }
            let ghost mid = lines@.map_values(|l: SuggestedLine| line_view(l));
            assert(mid =~= rem + (if !self.state@.disclosures.seller_identified {
                seq![(identify_line(), 80u8)]
            } else {
                Seq::<(Seq<char>, u8)>::empty()
            }));
            if !self.state.disclosures.sales_purpose_stated {
                lines.push(
                    SuggestedLine {
                        text: "Disclose the sales purpose: 'I'm calling today with a special offer for you.'".to_string(),
                        confidence: 80,
                    },
                );
            }
        }
        assert(lines@.map_values(|l: SuggestedLine| line_view(l)) =~= rem + contextual_lines(
            *metadata,
            transcript@,
            self.state@,
        ));
        let ghost all = lines@.map_values(|l: SuggestedLine| line_view(l));
        lines.truncate(MAX_SUGGESTIONS);
        assert(lines@.map_values(|l: SuggestedLine| line_view(l)) =~= first_lines(all));
        Ok(EvaluationOutput { alerts, suggested_next_lines: lines })
    }
}

} // verus!
