//! The adapter to the hosted language-model evaluator: its configuration
//! state, the availability-probe decisions, the prompts it sends, and the
//! normalisation of its output into the shared alert schema.
use vstd::prelude::*;

verus! {

/// The hosted evaluator's answer, in the required output format.
#[derive(Debug, Clone)]
pub struct LlmResponse {
    pub alerts: Vec<LlmAlert>,
    pub suggested_next_lines: Vec<LlmSuggestion>,
}

/// An alert as the hosted evaluator reports it, without an identifier.
#[derive(Debug, Clone)]
pub struct LlmAlert {
    pub rule_id: String,
    pub title: String,
    pub severity: String,
    pub confidence: u8,
    pub evidence: LlmEvidence,
    pub why_it_matters: String,
    pub agent_fix_suggestion: String,
}

/// Evidence as the hosted evaluator reports it.
#[derive(Debug, Clone)]
pub struct LlmEvidence {
    pub quote: String,
    pub start_char: usize,
    pub end_char: usize,
}

/// A suggestion as the hosted evaluator reports it.
#[derive(Debug, Clone)]
pub struct LlmSuggestion {
    pub text: String,
    pub confidence: u8,
}

/// The endpoint used when none is configured.
pub const DEFAULT_ENDPOINT: &'static str = "http://localhost:11434";

/// The model used when none is configured.
pub const DEFAULT_MODEL: &'static str = "llama3.2:1b";

/// The system prompt up to the rendered catalog.
pub const PROMPT_HEAD: &'static str = r#"You are a TCPA compliance evaluator for live call center calls. Analyze transcripts in real-time and identify potential compliance violations.

⚠️ LEGAL DISCLAIMER: This is NOT legal advice. Compliance depends on jurisdiction and requires legal counsel review.

RULES TO EVALUATE:
"#;

/// The system prompt after the rendered catalog.
pub const PROMPT_TAIL: &'static str = r#"

OUTPUT FORMAT (STRICT JSON ONLY):
{
  "alerts": [
    {
      "rule_id": "DNC-001",
      "title": "Customer requested no further calls",
      "severity": "high",
      "confidence": 92,
      "evidence": {
        "quote": "exact quote from transcript",
        "start_char": 0,
        "end_char": 50
      },
      "why_it_matters": "brief explanation",
      "agent_fix_suggestion": "what agent should say"
    }
  ],
  "suggested_next_lines": [
    { "text": "compliant response suggestion", "confidence": 88 }
  ]
}

RULES:
1. Return ONLY valid JSON - no markdown, no explanation
2. Only flag actual violations with evidence from the transcript
3. Include accurate character positions for evidence quotes
4. Confidence 0-100 based on certainty
5. If no violations, return: {"alerts": [], "suggested_next_lines": []}

Analyze the transcript now:"#;

/// Configuration and availability of the hosted evaluator.
pub struct LlmClient {
    endpoint: String,
    model: String,
    enabled: bool,
}

/// The model of a client: endpoint, model name and availability.
pub struct LlmConfig {
    pub endpoint: Seq<char>,
    pub model: Seq<char>,
    pub enabled: bool,
}

impl View for LlmClient {
    type V = LlmConfig;

    closed spec fn view(&self) -> LlmConfig {
        LlmConfig { endpoint: self.endpoint@, model: self.model@, enabled: self.enabled }
    }
}

/// The characters of `model` before its first `':'` (all of them if it has
/// none): the model family that an installed model name must start with.
pub open spec fn model_family(model: Seq<char>) -> Seq<char>
    decreases model.len(),
{
    if model.len() == 0 {
        model
    } else if model.last() == ':' && !model.drop_last().contains(':') {
        model.drop_last()
    } else if model.drop_last().contains(':') {
        model_family(model.drop_last())
    } else {
        model
    }
}

/// Whether `name` starts with `prefix`.
pub open spec fn starts_with(name: Seq<char>, prefix: Seq<char>) -> bool {
    prefix.len() <= name.len() && name.take(prefix.len() as int) == prefix
}

/// What the model-listing endpoint answered.
#[derive(Debug, Clone)]
pub enum TagsReply {
    /// The request failed or the status was not a success.
    Failed,
    /// A success whose body held no model list.
    Unlisted,
    /// A success with the names of the installed models.
    Listed(Vec<String>),
}

/// What to do after an answer of the model-listing endpoint.
#[derive(Debug, Clone, Copy, PartialEq, Eq, Structural)]
pub enum ProbeStep {
    /// The configured model can be used.
    Available,
    /// The configured model is missing: request a model fetch.
    FetchModel,
    /// The provider cannot be used.
    Unavailable,
}

/// Whether some name in `names` starts with the family of `model`.
pub open spec fn model_installed(names: Seq<String>, model: Seq<char>) -> bool {
    exists|i: int| 0 <= i < names.len() && starts_with(#[trigger] names[i]@, model_family(model))
}

/// The step after listing reply `reply` for configured model `model`.
pub open spec fn probe_step(reply: TagsReply, model: Seq<char>) -> ProbeStep {
    match reply {
        TagsReply::Failed => ProbeStep::Unavailable,
        TagsReply::Unlisted => ProbeStep::Available,
        TagsReply::Listed(names) => if model_installed(names@, model) {
            ProbeStep::Available
        } else {
            ProbeStep::FetchModel
        },
    }
}

/// The characters of `model` before its first `':'`.
fn family_of(model: &Vec<char>) -> (r: Vec<char>)
    ensures
        r@ == model_family(model@),
{
    let mut out: Vec<char> = Vec::new();
    let mut i: usize = 0;
    while i < model.len() && model[i] != ':'
        invariant
            i <= model.len(),
            out@ == model@.take(i as int),
            !out@.contains(':'),
        decreases model.len() - i,
    {
        out.push(model[i]);
        proof {
            assert(out@ =~= model@.take(i + 1));
        }
        i = i + 1;
    }
    proof {
        lemma_family_of_prefix(model@, i as int);
    }
    out
}

/// The family of `m` is its prefix before index `i`, when `i` is the first
/// `':'` or the end.
proof fn lemma_family_of_prefix(m: Seq<char>, i: int)
    requires
        0 <= i <= m.len(),
        !m.take(i).contains(':'),
        i < m.len() ==> m[i] == ':',
    ensures
        model_family(m) == m.take(i),
    decreases m.len(),
{
    if m.len() == 0 {
        assert(m.take(i) =~= m);
    } else if i == m.len() {
        assert(m.take(i) =~= m);
        assert(m.drop_last() =~= m.take(i).drop_last());
        if m.drop_last().contains(':') {
            let k = choose|k: int| 0 <= k < m.drop_last().len() && m.drop_last()[k] == ':';
            assert(m.take(i)[k] == ':');
        }
    } else {
        assert(m.drop_last().take(i) =~= m.take(i));
        if i == m.len() - 1 {
            assert(m.drop_last() =~= m.take(i));
        } else {
            assert(m.drop_last()[i] == ':');
            assert(m.drop_last().contains(':'));
            lemma_family_of_prefix(m.drop_last(), i);
        }
    }
}

/// Whether `name` starts with `prefix`.
fn has_prefix(name: &Vec<char>, prefix: &Vec<char>) -> (r: bool)
    ensures
        r == starts_with(name@, prefix@),
{
    if prefix.len() > name.len() {
        return false;
    }
    let mut i: usize = 0;
    while i < prefix.len()
        invariant
            prefix.len() <= name.len(),
            i <= prefix.len(),
            forall|j: int| 0 <= j < i ==> name@[j] == prefix@[j],
        decreases prefix.len() - i,
    {
        if name[i] != prefix[i] {
            assert(name@.take(prefix.len() as int)[i as int] != prefix@[i as int]);
            return false;
        }
        i = i + 1;
    }
    assert(name@.take(prefix.len() as int) =~= prefix@);
    true
}

impl LlmClient {
    /// A client for `endpoint` and `model`, or the defaults; unavailable until
    /// probed.
    pub fn new(endpoint: Option<String>, model: Option<String>) -> (r: Self)
        ensures
            r@.endpoint == (match endpoint {
                Some(e) => e@,
                None => DEFAULT_ENDPOINT@,
            }),
            r@.model == (match model {
                Some(m) => m@,
                None => DEFAULT_MODEL@,
            }),
            !r@.enabled,
    {
        let endpoint = match endpoint {
            Some(e) => e,
            None => DEFAULT_ENDPOINT.to_string(),
        };
        let model = match model {
            Some(m) => m,
            None => DEFAULT_MODEL.to_string(),
        };
        LlmClient { endpoint, model, enabled: false }
    }

    /// Whether the hosted evaluator is marked available.
    pub fn is_enabled(&self) -> (r: bool)
        ensures
            r == self@.enabled,
    {
        self.enabled
    }

    /// The configured model.
    pub fn get_model(&self) -> (r: &str)
        ensures
            r@ == self@.model,
    {
        self.model.as_str()
    }

    /// The configured endpoint.
    pub fn get_endpoint(&self) -> (r: &str)
        ensures
            r@ == self@.endpoint,
    {
        self.endpoint.as_str()
    }

    /// Switches to `model`; the provider counts as unavailable until the next
    /// probe.
    pub fn set_model(&mut self, model: String)
        ensures
            final(self)@.model == model@,
            final(self)@.endpoint == old(self)@.endpoint,
            !final(self)@.enabled,
    {
        self.model = model;
        self.enabled = false;
    }

    /// Takes the answer of the model-listing endpoint and decides the next
    /// step; availability is set on a definite answer.
    pub fn on_tags_reply(&mut self, reply: &TagsReply) -> (step: ProbeStep)
        ensures
            step == probe_step(*reply, old(self)@.model),
            final(self)@.model == old(self)@.model,
            final(self)@.endpoint == old(self)@.endpoint,
            final(self)@.enabled == match step {
                ProbeStep::Available => true,
                ProbeStep::Unavailable => false,
                ProbeStep::FetchModel => old(self)@.enabled,
            },
    {
        let step = match reply {
            TagsReply::Failed => ProbeStep::Unavailable,
            TagsReply::Unlisted => ProbeStep::Available,
            TagsReply::Listed(names) => {
                let model = crate::text::chars_of(self.model.as_str());
                let family = family_of(&model);
                let mut found = false;
                let mut i: usize = 0;
                while i < names.len()
                    invariant
                        i <= names.len(),
                        family@ == model_family(self.model@),
                        found == exists|j: int|
                            0 <= j < i && starts_with(#[trigger] names@[j]@, family@),
                    decreases names.len() - i,
                {
                    let name = crate::text::chars_of(names[i].as_str());
                    if has_prefix(&name, &family) {
                        found = true;
                    }
                    i = i + 1;
                }
                if found {
                    ProbeStep::Available
                } else {
                    ProbeStep::FetchModel
                }
            },
        };
        match step {
            ProbeStep::Available => self.enabled = true,
            ProbeStep::Unavailable => self.enabled = false,
            ProbeStep::FetchModel => {},
        }
        step
    }

    /// Takes the outcome of a model-fetch request: availability is its success.
    pub fn on_fetch_reply(&mut self, success: bool) -> (r: bool)
        ensures
            r == success,
            final(self)@.enabled == success,
            final(self)@.model == old(self)@.model,
            final(self)@.endpoint == old(self)@.endpoint,
    {
        self.enabled = success;
        success
    }

    /// The system prompt: instructions, the rendered catalog `rules_yaml`, the
    /// output schema and the JSON-only rules.
    pub fn generate_system_prompt(&self, rules_yaml: &str) -> (r: String)
        ensures
            r@ == PROMPT_HEAD@ + rules_yaml@ + PROMPT_TAIL@,
    {
        let mut s = String::new();
        s.append(PROMPT_HEAD);
        s.append(rules_yaml);
        s.append(PROMPT_TAIL);
        s
    }
}

/// The user prompt: the call metadata text and the transcript.
pub fn user_prompt(call_metadata: &str, transcript: &str) -> (r: String)
    ensures
        r@ == "CALL METADATA:\n"@ + call_metadata@ + "\n\nTRANSCRIPT:\n"@ + transcript@
            + "\n\nAnalyze and return JSON:"@,
{
    let mut s = String::new();
    s.append("CALL METADATA:\n");
    s.append(call_metadata);
    s.append("\n\nTRANSCRIPT:\n");
    s.append(transcript);
    s.append("\n\nAnalyze and return JSON:");
    s
}

} // verus!
