//! The rule catalog: rule definitions, the default catalog, lookups and the
//! textual rendering embedded in hosted-evaluator prompts.
use vstd::prelude::*;

use crate::text::{debug_quote, debug_quoted_of, same_text};

verus! {

/// Rule category for grouping and filtering.
#[derive(Debug, Clone, Copy, PartialEq, Eq, Structural)]
pub enum RuleCategory {
    CallingTime,
    DoNotCall,
    Disclosure,
    Consent,
    Identification,
    RecordingDisclosure,
    Prerecorded,
}

/// Severity level of an alert.
#[derive(Debug, Clone, Copy, PartialEq, Eq, Structural)]
pub enum Severity {
    Low,
    Medium,
    High,
}

/// A single compliance rule.
#[derive(Debug, Clone)]
pub struct Rule {
    pub id: String,
    pub title: String,
    pub category: RuleCategory,
    pub description: String,
    pub severity: Severity,
    pub triggers: Vec<String>,
    pub regex_patterns: Vec<String>,
    pub requires_metadata: bool,
    pub metadata_field: Option<String>,
    pub why_it_matters: String,
    pub recommended_fix: String,
    pub legal_reference: String,
    pub enabled: bool,
    pub optional: bool,
}

/// A complete rule catalog with its version information.
#[derive(Debug, Clone)]
pub struct RuleSet {
    pub version: String,
    pub last_updated: String,
    pub disclaimer: String,
    pub rules: Vec<Rule>,
}

/// Shape of the `i`-th rule of the default catalog: its id, category,
/// severity and whether it is decided by call metadata alone.
pub open spec fn default_rule_shape(
    r: Rule,
    id: Seq<char>,
    category: RuleCategory,
    severity: Severity,
    requires_metadata: bool,
) -> bool {
    &&& r.id@ == id
    &&& r.category == category
    &&& r.severity == severity
    &&& r.requires_metadata == requires_metadata
    &&& r.enabled
}

/// The default catalog, in scan order.
pub open spec fn is_default_catalog(rs: Seq<Rule>) -> bool {
    &&& rs.len() == 11
    &&& default_rule_shape(rs[0], "TIME-001"@, RuleCategory::CallingTime, Severity::High, true)
    &&& default_rule_shape(rs[1], "DNC-001"@, RuleCategory::DoNotCall, Severity::High, false)
    &&& default_rule_shape(rs[2], "DNC-002"@, RuleCategory::DoNotCall, Severity::High, false)
    &&& default_rule_shape(rs[3], "DNC-003"@, RuleCategory::DoNotCall, Severity::High, true)
    &&& default_rule_shape(rs[4], "DISC-001"@, RuleCategory::Disclosure, Severity::Medium, false)
    &&& default_rule_shape(rs[5], "DISC-002"@, RuleCategory::Disclosure, Severity::Medium, false)
    &&& default_rule_shape(rs[6], "DISC-003"@, RuleCategory::Disclosure, Severity::Low, false)
    &&& default_rule_shape(rs[7], "CONS-001"@, RuleCategory::Consent, Severity::High, false)
    &&& default_rule_shape(rs[8], "IDENT-001"@, RuleCategory::Identification, Severity::Low, false)
    &&& default_rule_shape(rs[9], "PREC-001"@, RuleCategory::Prerecorded, Severity::High, true)
    &&& default_rule_shape(rs[10], "REC-001"@, RuleCategory::RecordingDisclosure, Severity::Medium, false)
}


/// How `{:?}` prints a category: its variant name.
pub open spec fn category_name(c: RuleCategory) -> Seq<char> {
    match c {
        RuleCategory::CallingTime => "CallingTime"@,
        RuleCategory::DoNotCall => "DoNotCall"@,
        RuleCategory::Disclosure => "Disclosure"@,
        RuleCategory::Consent => "Consent"@,
        RuleCategory::Identification => "Identification"@,
        RuleCategory::RecordingDisclosure => "RecordingDisclosure"@,
        RuleCategory::Prerecorded => "Prerecorded"@,
    }
}

/// How `{:?}` prints a severity: its variant name.
pub open spec fn severity_name(s: Severity) -> Seq<char> {
    match s {
        Severity::Low => "Low"@,
        Severity::Medium => "Medium"@,
        Severity::High => "High"@,
    }
}

/// `acc` followed by the opening bracket and the quoted phrases of `ts`,
/// separated by `", "` (the list printed without its closing bracket).
pub open spec fn phrase_list_into(acc: Seq<char>, ts: Seq<String>) -> Seq<char>
    decreases ts.len(),
{
    if ts.len() == 0 {
        acc + "["@
    } else {
        let p = phrase_list_into(acc, ts.drop_last());
        if ts.len() == 1 {
            p + debug_quoted_of(ts.last()@)
        } else {
            p + ", "@ + debug_quoted_of(ts.last()@)
        }
    }
}

/// `acc` followed by the rendering of one rule.
pub open spec fn rule_block_into(acc: Seq<char>, r: Rule) -> Seq<char> {
    let head = acc + "## "@ + r.id@ + " - "@ + r.title@ + "\n"@ + "- Category: "@ + category_name(
        r.category,
    ) + "\n"@ + "- Severity: "@ + severity_name(r.severity) + "\n"@ + "- Description: "@
        + r.description@ + "\n"@ + "- Why it matters: "@ + r.why_it_matters@ + "\n"@
        + "- Recommended fix: \""@ + r.recommended_fix@ + "\"\n"@ + "- Legal reference: "@
        + r.legal_reference@ + "\n"@;
    let with_triggers = if r.triggers@.len() > 0 {
        phrase_list_into(head + "- Trigger phrases: "@, r.triggers@) + "]"@ + "\n"@
    } else {
        head
    };
    with_triggers + "\n"@
}

/// The heading of a rendered catalog of version `version`.
pub open spec fn catalog_heading(version: Seq<char>) -> Seq<char> {
    "# TCPA Compliance Rules v"@ + version + "\n\n"@
}

/// `acc` followed by the rendering of each enabled rule of `rs`, in order.
pub open spec fn rules_into(acc: Seq<char>, rs: Seq<Rule>) -> Seq<char>
    decreases rs.len(),
{
    if rs.len() == 0 {
        acc
    } else {
        let p = rules_into(acc, rs.drop_last());
        if rs.last().enabled {
            rule_block_into(p, rs.last())
        } else {
            p
        }
    }
}

/// The textual rendering of a catalog embedded in hosted-evaluator prompts.
pub open spec fn render_catalog(version: Seq<char>, rs: Seq<Rule>) -> Seq<char> {
    rules_into(catalog_heading(version), rs)
}

/// The first index of `rs` whose rule has id `id`.
pub open spec fn first_with_id(rs: Seq<Rule>, id: Seq<char>, i: int) -> bool {
    0 <= i < rs.len() && rs[i].id@ == id && forall|j: int| 0 <= j < i ==> rs[j].id@ != id
}

/// Appends the debug-quoted phrase list of `ts`, closing bracket included.
fn append_phrase_list(out: &mut String, ts: &Vec<String>)
    ensures
        final(out)@ == phrase_list_into(old(out)@, ts@) + "]"@,
{
    let ghost acc = out@;
    out.append("[");
    let mut i: usize = 0;
    while i < ts.len()
        invariant
            i <= ts.len(),
            out@ == phrase_list_into(acc, ts@.take(i as int)),
        decreases ts.len() - i,
    {
        proof {
            assert(ts@.take(i + 1).drop_last() =~= ts@.take(i as int));
        }
        if i > 0 {
            out.append(", ");
        }
        let q = debug_quote(ts[i].as_str());
        out.append(q.as_str());
        i = i + 1;
    }
    assert(ts@.take(ts.len() as int) =~= ts@);
    out.append("]");
}

/// Appends the rendering of one rule.
fn append_rule_block(out: &mut String, r: &Rule)
    ensures
        final(out)@ == rule_block_into(old(out)@, *r),
{
    out.append("## ");
    out.append(r.id.as_str());
    out.append(" - ");
    out.append(r.title.as_str());
    out.append("\n");
    out.append("- Category: ");
    out.append(
        match r.category {
            RuleCategory::CallingTime => "CallingTime",
            RuleCategory::DoNotCall => "DoNotCall",
            RuleCategory::Disclosure => "Disclosure",
            RuleCategory::Consent => "Consent",
            RuleCategory::Identification => "Identification",
            RuleCategory::RecordingDisclosure => "RecordingDisclosure",
            RuleCategory::Prerecorded => "Prerecorded",
        },
    );
    out.append("\n");
    out.append("- Severity: ");
    out.append(
        match r.severity {
            Severity::Low => "Low",
            Severity::Medium => "Medium",
            Severity::High => "High",
        },
    );
    out.append("\n");
    out.append("- Description: ");
    out.append(r.description.as_str());
    out.append("\n");
    out.append("- Why it matters: ");
    out.append(r.why_it_matters.as_str());
    out.append("\n");
    out.append("- Recommended fix: \"");
    out.append(r.recommended_fix.as_str());
    out.append("\"\n");
    out.append("- Legal reference: ");
    out.append(r.legal_reference.as_str());
    out.append("\n");
    if r.triggers.len() > 0 {
        out.append("- Trigger phrases: ");
        append_phrase_list(out, &r.triggers);
        out.append("\n");
    }
    out.append("\n");
}

impl RuleSet {
    /// Loads the embedded default catalog.
    pub fn load_default() -> (r: Result<Self, String>)
        ensures
            r matches Ok(set) && is_default_catalog(set.rules@),
            r matches Ok(set) && set.version@ == "1.0.0"@ && set.last_updated@ == "2026-01-16"@,
    {
        Ok(RuleSet {
            version: "1.0.0".to_string(),
            last_updated: "2026-01-16".to_string(),
            disclaimer: "This tool provides compliance risk signals only. It is NOT legal advice. \
                         Compliance requirements depend on jurisdiction and require legal counsel review. \
                         Always consult with qualified legal professionals for compliance decisions.".to_string(),
            rules: Self::get_default_rules(),
        })
    }

    fn get_default_rules() -> (r: Vec<Rule>)
        ensures
            is_default_catalog(r@),
    {
        vec![
            Rule {
                id: "TIME-001".to_string(),
                title: "Calling Time Violation".to_string(),
                category: RuleCategory::CallingTime,
                description: "Telemarketing calls made outside 8am-9pm in the consumer's local time".to_string(),
                severity: Severity::High,
                triggers: vec![],
                regex_patterns: vec![],
                requires_metadata: true,
                metadata_field: Some("call_time_local".to_string()),
                why_it_matters: "The TCPA prohibits telemarketing calls before 8am or after 9pm in the \
                                 consumer's local time zone. Violations can result in $500-$1,500 per call.".to_string(),
                recommended_fix: "Verify time zone before calling. If outside hours, apologize and offer \
                                  to call back during appropriate hours.".to_string(),
                legal_reference: "47 U.S.C. § 227(c)(5); 47 C.F.R. § 64.1200(c)(1)".to_string(),
                enabled: true,
                optional: false,
            },
            
            Rule {
                id: "DNC-001".to_string(),
                title: "Customer Requested No Further Calls".to_string(),
                category: RuleCategory::DoNotCall,
                description: "Customer explicitly requests to stop receiving calls".to_string(),
                severity: Severity::High,
                triggers: vec![
                    "don't call me".to_string(),
                    "do not call me".to_string(),
                    "stop calling me".to_string(),
                    "remove me from your list".to_string(),
                    "take me off your list".to_string(),
                    "put me on do not call".to_string(),
                    "add me to do not call".to_string(),
                    "no more calls".to_string(),
                    "never call again".to_string(),
                    "stop contacting me".to_string(),
                ],
                regex_patterns: vec![
                    r"(?i)(don'?t|do\s*not|stop|quit|cease)\s+(call|contact|ring|phone)".to_string(),
                    r"(?i)(remove|take)\s+(me|my\s+number)\s+(from|off)".to_string(),
                    r"(?i)(put|add)\s+(me|my\s+number)\s+(on|to)\s+(the\s+)?(do\s*not\s*call|dnc)".to_string(),
                ],
                requires_metadata: false,
                metadata_field: None,
                why_it_matters: "Under TCPA, consumers can revoke consent by any reasonable means at any time. \
                                 Continuing to call after a DNC request is a violation.".to_string(),
                recommended_fix: "Understood—I'll add you to our Do Not Call list effective immediately. \
                                  You won't receive any more marketing calls from us. Is there anything else \
                                  I can help you with today?".to_string(),
                legal_reference: "47 U.S.C. § 227(c); 47 C.F.R. § 64.1200(d)".to_string(),
                enabled: true,
                optional: false,
            },
            Rule {
                id: "DNC-002".to_string(),
                title: "Agent Continued After DNC Request".to_string(),
                category: RuleCategory::DoNotCall,
                description: "Agent attempted to continue sales pitch after customer requested DNC".to_string(),
                severity: Severity::High,
                triggers: vec![
                    "before you go".to_string(),
                    "just one more thing".to_string(),
                    "let me just tell you".to_string(),
                    "you might want to hear".to_string(),
                    "are you sure".to_string(),
                    "but wait".to_string(),
                ],
                regex_patterns: vec![
                    r"(?i)(before\s+you\s+go|just\s+one\s+more|let\s+me\s+just)".to_string(),
                    r"(?i)(are\s+you\s+sure|but\s+wait|hear\s+me\s+out)".to_string(),
                ],
                requires_metadata: false,
                metadata_field: None,
                why_it_matters: "After a DNC request, any attempt to continue selling significantly \
                                 increases violation risk and demonstrates willful non-compliance.".to_string(),
                recommended_fix: "Do not continue selling. Acknowledge the request, confirm DNC placement, \
                                  and end the call professionally.".to_string(),
                legal_reference: "47 C.F.R. § 64.1200(d)(3)".to_string(),
                enabled: true,
                optional: false,
            },
            Rule {
                id: "DNC-003".to_string(),
                title: "National DNC List - No Consent Evidence".to_string(),
                category: RuleCategory::DoNotCall,
                description: "Number is on National DNC list and call is marketing without consent evidence".to_string(),
                severity: Severity::High,
                triggers: vec![],
                regex_patterns: vec![],
                requires_metadata: true,
                metadata_field: Some("is_dnc_listed".to_string()),
                why_it_matters: "Calling numbers on the National DNC Registry without prior express consent \
                                 or an established business relationship is a TCPA violation.".to_string(),
                recommended_fix: "If calling a DNC-listed number, ensure you have documented consent or \
                                  an existing business relationship. If unsure, end the marketing call.".to_string(),
                legal_reference: "47 C.F.R. § 64.1200(c)(2)".to_string(),
                enabled: true,
                optional: false,
            },
            
            Rule {
                id: "DISC-001".to_string(),
                title: "Missing Seller Identity Disclosure".to_string(),
                category: RuleCategory::Disclosure,
                description: "Agent did not promptly identify the seller/company name".to_string(),
                severity: Severity::Medium,
                triggers: vec![],
                regex_patterns: vec![
                    r"(?i)(calling\s+(from|on\s+behalf\s+of)|this\s+is|my\s+name\s+is.*?(with|from))".to_string(),
                ],
                requires_metadata: false,
                metadata_field: None,
                why_it_matters: "FTC Telemarketing Sales Rule requires prompt disclosure of the seller's \
                                 identity at the beginning of outbound sales calls.".to_string(),
                recommended_fix: "Hi, my name is [Name] calling from [Company Name].".to_string(),
                legal_reference: "16 C.F.R. § 310.4(d)(1)".to_string(),
                enabled: true,
                optional: false,
            },
            Rule {
                id: "DISC-002".to_string(),
                title: "Missing Sales Call Nature Disclosure".to_string(),
                category: RuleCategory::Disclosure,
                description: "Agent did not disclose that the call is a sales call".to_string(),
                severity: Severity::Medium,
                triggers: vec![],
                regex_patterns: vec![
                    r"(?i)(sales|marketing|promotion|offer|special\s+deal|opportunity)".to_string(),
                ],
                requires_metadata: false,
                metadata_field: None,
                why_it_matters: "The TSR requires disclosure that the call is for sales purposes \
                                 before making the sales pitch.".to_string(),
                recommended_fix: "I'm calling today with a special offer for you...".to_string(),
                legal_reference: "16 C.F.R. § 310.4(d)(2)".to_string(),
                enabled: true,
                optional: false,
            },
            Rule {
                id: "DISC-003".to_string(),
                title: "Missing Product/Service Description".to_string(),
                category: RuleCategory::Disclosure,
                description: "Agent proceeded with pitch without describing what is being sold".to_string(),
                severity: Severity::Low,
                triggers: vec![],
                regex_patterns: vec![],
                requires_metadata: false,
                metadata_field: None,
                why_it_matters: "Consumers should understand what product or service is being offered \
                                 early in the call.".to_string(),
                recommended_fix: "The reason for my call is to tell you about our [product/service]...".to_string(),
                legal_reference: "16 C.F.R. § 310.4(d)(3)".to_string(),
                enabled: true,
                optional: false,
            },
            
            Rule {
                id: "CONS-001".to_string(),
                title: "Consent Revocation Detected".to_string(),
                category: RuleCategory::Consent,
                description: "Consumer appears to be revoking consent by reasonable means".to_string(),
                severity: Severity::High,
                triggers: vec![
                    "i withdraw my consent".to_string(),
                    "i revoke my consent".to_string(),
                    "i take back my consent".to_string(),
                    "i no longer consent".to_string(),
                    "i didn't agree to this".to_string(),
                    "i never agreed".to_string(),
                    "i want to opt out".to_string(),
                    "opt me out".to_string(),
                    "unsubscribe me".to_string(),
                ],
                regex_patterns: vec![
                    r"(?i)(withdraw|revoke|take\s+back|cancel)\s+(my\s+)?(consent|permission|authorization)".to_string(),
                    r"(?i)(opt|unsubscribe)\s+(me\s+)?out".to_string(),
                    r"(?i)(never|didn'?t)\s+(agree|consent|authorize)".to_string(),
                ],
                requires_metadata: false,
                metadata_field: None,
                why_it_matters: "Under TCPA, consumers can revoke consent by any reasonable means. \
                                 Non-standard wording still constitutes valid revocation.".to_string(),
                recommended_fix: "I understand you'd like to revoke your consent. I'll process that right away \
                                  and you'll be removed from our calling list.".to_string(),
                legal_reference: "47 C.F.R. § 64.1200(a)(7)(ii)".to_string(),
                enabled: true,
                optional: false,
            },
            
            Rule {
                id: "IDENT-001".to_string(),
                title: "Missing Callback Number".to_string(),
                category: RuleCategory::Identification,
                description: "Agent did not provide callback number/address for consumer contact".to_string(),
                severity: Severity::Low,
                triggers: vec![],
                regex_patterns: vec![
                    r"(?i)(call\s+(us\s+)?back\s+at|reach\s+us\s+at|our\s+number\s+is|contact\s+us\s+at)".to_string(),
                ],
                requires_metadata: false,
                metadata_field: None,
                why_it_matters: "Telemarketers must provide a means for consumers to reach the business, \
                                 typically a callback number.".to_string(),
                recommended_fix: "If you have any questions, you can reach us at [phone number].".to_string(),
                legal_reference: "16 C.F.R. § 310.4(d)(7)".to_string(),
                enabled: true,
                optional: false,
            },
            
            Rule {
                id: "PREC-001".to_string(),
                title: "Prerecorded Voice Without Consent".to_string(),
                category: RuleCategory::Prerecorded,
                description: "Call using prerecorded/artificial voice without required prior express written consent".to_string(),
                severity: Severity::High,
                triggers: vec![],
                regex_patterns: vec![],
                requires_metadata: true,
                metadata_field: Some("is_prerecorded".to_string()),
                why_it_matters: "TCPA requires prior express written consent for prerecorded telemarketing \
                                 calls to cell phones.".to_string(),
                recommended_fix: "Ensure written consent is obtained and documented before using \
                                  prerecorded messages for marketing.".to_string(),
                legal_reference: "47 U.S.C. § 227(b)(1)(A)".to_string(),
                enabled: true,
                optional: false,
            },
            
            Rule {
                id: "REC-001".to_string(),
                title: "Missing Recording Disclosure".to_string(),
                category: RuleCategory::RecordingDisclosure,
                description: "Call is being recorded without disclosure (jurisdiction-dependent)".to_string(),
                severity: Severity::Medium,
                triggers: vec![],
                regex_patterns: vec![
                    r"(?i)(this\s+call\s+(is|may\s+be)\s+(being\s+)?recorded|call\s+recording|for\s+quality\s+(and\s+training\s+)?purposes)".to_string(),
                ],
                requires_metadata: false,
                metadata_field: None,
                why_it_matters: "Some states require two-party consent for call recording. \
                                 This rule is jurisdiction-dependent and should be reviewed with counsel.".to_string(),
                recommended_fix: "This call may be recorded for quality and training purposes. \
                                  By continuing, you consent to this recording.".to_string(),
                legal_reference: "State-specific wiretapping/recording consent laws".to_string(),
                enabled: true,
                optional: true,
            },
        ]
    }

    /// The first rule with id `id`, if any.
    pub fn get_rule(&self, id: &str) -> (r: Option<&Rule>)
        ensures
            match r {
                Some(rule) => exists|i: int|
                    first_with_id(self.rules@, id@, i) && self.rules@[i] == *rule,
                None => forall|i: int| 0 <= i < self.rules@.len() ==> self.rules@[i].id@ != id@,
            },
    {
        let mut i: usize = 0;
        while i < self.rules.len()
            invariant
                i <= self.rules.len(),
                forall|j: int| 0 <= j < i ==> self.rules@[j].id@ != id@,
            decreases self.rules.len() - i,
        {
            if same_text(self.rules[i].id.as_str(), id) {
                assert(first_with_id(self.rules@, id@, i as int));
                return Some(&self.rules[i]);
            }
            i = i + 1;
        }
        None
    }

    /// The enabled rules, in catalog order.
    pub fn get_enabled_rules(&self) -> (r: Vec<&Rule>)
        ensures
            r@.map_values(|x: &Rule| *x) == self.rules@.filter(|x: Rule| x.enabled),
    {
        let mut out: Vec<&Rule> = Vec::new();
        let mut i: usize = 0;
        while i < self.rules.len()
            invariant
                i <= self.rules.len(),
                out@.map_values(|x: &Rule| *x) == self.rules@.take(i as int).filter(|x: Rule| x.enabled),
            decreases self.rules.len() - i,
        {
            proof {
                assert(self.rules@.take(i + 1) =~= self.rules@.take(i as int).push(self.rules@[i as int]));
                self.rules@.take(i as int).lemma_filter_push(self.rules@[i as int], |x: Rule| x.enabled);
            }
            if self.rules[i].enabled {
                let ghost before = out@;
                out.push(&self.rules[i]);
                assert(out@.map_values(|x: &Rule| *x) =~= before.map_values(|x: &Rule| *x).push(
                    self.rules@[i as int],
                ));
            }
            i = i + 1;
        }
        assert(self.rules@.take(self.rules.len() as int) =~= self.rules@);
        out
    }

    /// The rules of category `category`, in catalog order.
    pub fn get_rules_by_category(&self, category: RuleCategory) -> (r: Vec<&Rule>)
        ensures
            r@.map_values(|x: &Rule| *x) == self.rules@.filter(|x: Rule| x.category == category),
    {
        let mut out: Vec<&Rule> = Vec::new();
        let mut i: usize = 0;
        while i < self.rules.len()
            invariant
                i <= self.rules.len(),
                out@.map_values(|x: &Rule| *x) == self.rules@.take(i as int).filter(|x: Rule| x.category == category),
            decreases self.rules.len() - i,
        {
            proof {
                assert(self.rules@.take(i + 1) =~= self.rules@.take(i as int).push(self.rules@[i as int]));
                self.rules@.take(i as int).lemma_filter_push(
                    self.rules@[i as int],
                    |x: Rule| x.category == category,
                );
            }
            if self.rules[i].category == category {
                let ghost before = out@;
                out.push(&self.rules[i]);
                assert(out@.map_values(|x: &Rule| *x) =~= before.map_values(|x: &Rule| *x).push(
                    self.rules@[i as int],
                ));
            }
            i = i + 1;
        }
        assert(self.rules@.take(self.rules.len() as int) =~= self.rules@);
        out
    }

    /// Renders every enabled rule for embedding in a hosted-evaluator prompt;
    /// the text depends on the catalog alone.
    pub fn to_yaml(&self) -> (r: String)
        ensures
            r@ == render_catalog(self.version@, self.rules@),
    {
        let mut yaml = String::new();
        yaml.append("# TCPA Compliance Rules v");
        yaml.append(self.version.as_str());
        yaml.append("\n\n");
        let mut i: usize = 0;
        while i < self.rules.len()
            invariant
                i <= self.rules.len(),
                yaml@ == rules_into(catalog_heading(self.version@), self.rules@.take(i as int)),
            decreases self.rules.len() - i,
        {
            proof {
                assert(self.rules@.take(i + 1).drop_last() =~= self.rules@.take(i as int));
            }
            if self.rules[i].enabled {
                append_rule_block(&mut yaml, &self.rules[i]);
            }
            i = i + 1;
        }
        assert(self.rules@.take(self.rules.len() as int) =~= self.rules@);
        yaml
    }
}

} // verus!
