//! Guarantees of the deterministic evaluator that relate several rules,
//! several evaluations, or every reachable state, proved over the model that
//! the evaluator's own contract uses.
use vstd::prelude::*;

use crate::evaluator::{
    confidence_of, contextual_lines, effect_of, evaluation, identify_line, initial_state,
    metadata_alerts, pass, phrase_hit_from, purpose_line, rule_step, text_hit, Disclosure, Found,
    MatchKind, RuleEffect, StateView,
};
use crate::rules::Rule;
use crate::text::{find_from, first_occurrence, lower_of, occurs_at};
use crate::CallMetadata;

verus! {

/// No two rules of `rs` share an id.
pub open spec fn unique_ids(rs: Seq<Rule>) -> bool {
    forall|i: int, j: int| 0 <= i < j < rs.len() ==> rs[i].id@ != rs[j].id@
}

/// The rule ids of alerting rules, in order.
pub open spec fn ids_of(out: Seq<(Rule, Found)>) -> Seq<Seq<char>> {
    out.map_values(|e: (Rule, Found)| e.0.id@)
}

/// Every flag set in `a` is still set in `b`.
pub open spec fn flags_grow(a: StateView, b: StateView) -> bool {
    &&& a.dnc_requested ==> b.dnc_requested
    &&& a.consent_revoked ==> b.consent_revoked
    &&& a.disclosures.seller_identified ==> b.disclosures.seller_identified
    &&& a.disclosures.sales_purpose_stated ==> b.disclosures.sales_purpose_stated
    &&& a.disclosures.product_described ==> b.disclosures.product_described
    &&& a.disclosures.callback_provided ==> b.disclosures.callback_provided
    &&& a.disclosures.recording_disclosed ==> b.disclosures.recording_disclosed
}

/// An alerting entry `e` of a pass over `rs`: an enabled rule of `rs` that is
/// no disclosure detector, with the match that its step found.
pub open spec fn entry_ok(md: CallMetadata, lt: Seq<char>, rs: Seq<Rule>, e: (Rule, Found)) -> bool {
    &&& rs.contains(e.0)
    &&& e.0.enabled
    &&& !(effect_of(e.0.id@) is Detect)
    &&& if e.0.requires_metadata {
        metadata_alerts(md, e.0.id@) && e.1 == Found { kind: MatchKind::Metadata, start: 0, end: 0 }
    } else {
        text_hit(lt, e.0) == Some(e.1)
    }
}

/// The two metadata-driven rule ids that can alert have no state effect.
proof fn lemma_metadata_ids()
    ensures
        effect_of("DNC-003"@) == RuleEffect::Plain,
        effect_of("PREC-001"@) == RuleEffect::Plain,
{
    reveal_strlit("DNC-001");
    reveal_strlit("DNC-002");
    reveal_strlit("DNC-003");
    reveal_strlit("CONS-001");
    reveal_strlit("DISC-001");
    reveal_strlit("DISC-002");
    reveal_strlit("DISC-003");
    reveal_strlit("IDENT-001");
    reveal_strlit("REC-001");
    reveal_strlit("PREC-001");
    assert("DNC-003"@[6] != "DNC-001"@[6]);
    assert("DNC-003"@[6] != "DNC-002"@[6]);
    assert("DNC-003"@[0] != "REC-001"@[0]);
    assert("PREC-001"@[0] != "CONS-001"@[0]);
    assert("PREC-001"@[0] != "DISC-001"@[0]);
    assert("PREC-001"@[0] != "DISC-002"@[0]);
    assert("PREC-001"@[0] != "DISC-003"@[0]);
}

/// What one rule's turn does to the ledger and the flags.
proof fn lemma_step(md: CallMetadata, lt: Seq<char>, r: Rule, st: StateView)
    ensures
        ({
            let s = rule_step(md, lt, r, st);
            &&& flags_grow(st, s.0)
            &&& match s.1 {
                Some(f) => {
                    &&& s.0.fired == st.fired.push(r.id@)
                    &&& !st.fired.contains(r.id@)
                    &&& r.enabled
                    &&& !(effect_of(r.id@) is Detect)
                    &&& if r.requires_metadata {
                        metadata_alerts(md, r.id@) && f == Found {
                            kind: MatchKind::Metadata,
                            start: 0,
                            end: 0,
                        }
                    } else {
                        text_hit(lt, r) == Some(f)
                    }
                },
                None => s.0.fired == st.fired,
            }
        }),
{
    lemma_metadata_ids();
    if r.requires_metadata && metadata_alerts(md, r.id@) {
        assert(r.id@ == "DNC-003"@ || r.id@ == "PREC-001"@);
    }
}

/// A pass records exactly the alerting rules in its ledger, reports only
/// well-formed entries, never clears a flag, and keeps the ledger free of
/// repeats.
pub proof fn lemma_pass(md: CallMetadata, lt: Seq<char>, rs: Seq<Rule>, st: StateView)
    ensures
        ({
            let p = pass(md, lt, rs, st);
            &&& p.0.fired == st.fired + ids_of(p.1)
            &&& forall|k: int| 0 <= k < p.1.len() ==> entry_ok(md, lt, rs, #[trigger] p.1[k])
            &&& flags_grow(st, p.0)
            &&& (st.fired.no_duplicates() ==> p.0.fired.no_duplicates())
        }),
    decreases rs.len(),
{
    if rs.len() == 0 {
        assert(st.fired + ids_of(Seq::empty()) =~= st.fired);
    } else {
        let prev = pass(md, lt, rs.drop_last(), st);
        lemma_pass(md, lt, rs.drop_last(), st);
        lemma_step(md, lt, rs.last(), prev.0);
        let s = rule_step(md, lt, rs.last(), prev.0);
        let p = pass(md, lt, rs, st);
        assert forall|k: int| 0 <= k < prev.1.len() implies entry_ok(md, lt, rs, #[trigger] prev.1[k]) by {
            assert(entry_ok(md, lt, rs.drop_last(), prev.1[k]));
            let j = choose|j: int| 0 <= j < rs.drop_last().len() && rs.drop_last()[j] == prev.1[k].0;
            assert(rs[j] == prev.1[k].0);
        }
        match s.1 {
            Some(f) => {
                assert(ids_of(prev.1.push((rs.last(), f))) =~= ids_of(prev.1).push(rs.last().id@));
                assert(st.fired + ids_of(prev.1).push(rs.last().id@) =~= (st.fired + ids_of(
                    prev.1,
                )).push(rs.last().id@));
                assert(rs[rs.len() - 1] == rs.last());
                assert forall|k: int| 0 <= k < p.1.len() implies entry_ok(md, lt, rs, #[trigger] p.1[k]) by {
                    if k < prev.1.len() {
                        assert(p.1[k] == prev.1[k]);
                    }
                }
                if st.fired.no_duplicates() {
                    assert(p.0.fired.no_duplicates()) by {
                        assert forall|a: int, b: int|
                            0 <= a < p.0.fired.len() && 0 <= b < p.0.fired.len() && a != b implies
                            p.0.fired[a] != p.0.fired[b] by {
                            if a == p.0.fired.len() - 1 {
                                assert(p.0.fired[b] == prev.0.fired[b]);
                            } else if b == p.0.fired.len() - 1 {
                                assert(p.0.fired[a] == prev.0.fired[a]);
                            } else {
                                assert(p.0.fired[a] == prev.0.fired[a]);
                                assert(p.0.fired[b] == prev.0.fired[b]);
                            }
                        }
                    }
                }
            },
            None => {
                assert forall|k: int| 0 <= k < p.1.len() implies entry_ok(md, lt, rs, #[trigger] p.1[k]) by {
                    assert(p.1[k] == prev.1[k]);
                }
            },
        }
    }
}

/// Whatever a pass over a prefix of the catalog has recorded stays recorded
/// after the whole pass.
pub proof fn lemma_pass_prefix(md: CallMetadata, lt: Seq<char>, rs: Seq<Rule>, st: StateView, j: int)
    requires
        0 <= j <= rs.len(),
    ensures
        ({
            let a = pass(md, lt, rs.take(j), st).0;
            let b = pass(md, lt, rs, st).0;
            &&& flags_grow(a, b)
            &&& forall|x: Seq<char>| a.fired.contains(x) ==> #[trigger] b.fired.contains(x)
        }),
    decreases rs.len(),
{
    if j == rs.len() {
        assert(rs.take(j) =~= rs);
    } else {
        assert(rs.drop_last().take(j) =~= rs.take(j));
        lemma_pass_prefix(md, lt, rs.drop_last(), st, j);
        let prev = pass(md, lt, rs.drop_last(), st);
        lemma_step(md, lt, rs.last(), prev.0);
        let b = pass(md, lt, rs, st).0;
        assert forall|x: Seq<char>| prev.0.fired.contains(x) implies #[trigger] b.fired.contains(x) by {
            let k = choose|k: int| 0 <= k < prev.0.fired.len() && prev.0.fired[k] == x;
            assert(b.fired[k] == x);
        }
    }
}

/// The first occurrence found by the search is an occurrence.
proof fn lemma_find_from_occurs(hay: Seq<char>, needle: Seq<char>, i: int)
    ensures
        find_from(hay, needle, i) matches Some(p) ==> occurs_at(hay, needle, p),
    decreases hay.len() + 1 - i,
{
    if !(i < 0 || i + needle.len() > hay.len()) && !occurs_at(hay, needle, i) {
        lemma_find_from_occurs(hay, needle, i + 1);
    }
}

/// When the trigger phrase at index `k` occurs, the phrase scan from any
/// `i <= k` finds a phrase match whose span holds one of the phrases.
proof fn lemma_phrase_hit(lt: Seq<char>, ts: Seq<String>, i: int, k: int)
    requires
        0 <= i <= k < ts.len(),
        first_occurrence(lt, lower_of(ts[k]@)) is Some,
        lt.len() <= usize::MAX,
    ensures
        phrase_hit_from(lt, ts, i) matches Some(f) && f.kind == MatchKind::Phrase && exists|m: int|
            0 <= m < ts.len() && lt.subrange(f.start as int, f.end as int) == lower_of(
                #[trigger] ts[m]@,
            ),
    decreases k - i,
{
    let needle = lower_of(ts[i]@);
    lemma_find_from_occurs(lt, needle, 0);
    match first_occurrence(lt, needle) {
        Some(p) => {
            assert(occurs_at(lt, needle, p));
            let f = phrase_hit_from(lt, ts, i).unwrap();
            assert(f.start as int == p);
            assert(f.end as int == p + needle.len());
        },
        None => {
            lemma_phrase_hit(lt, ts, i + 1, k);
        },
    }
}

/// Before its turn in a pass, a rule absent from the ledger is still absent
/// when no other rule of the catalog shares its id.
proof fn lemma_not_yet(md: CallMetadata, lt: Seq<char>, rs: Seq<Rule>, st: StateView, i: int)
    requires
        0 <= i < rs.len(),
        unique_ids(rs),
        !st.fired.contains(rs[i].id@),
    ensures
        !pass(md, lt, rs.take(i), st).0.fired.contains(rs[i].id@),
{
    let id = rs[i].id@;
    let mid = pass(md, lt, rs.take(i), st);
    lemma_pass(md, lt, rs.take(i), st);
    if mid.0.fired.contains(id) {
        let k = choose|k: int| 0 <= k < mid.0.fired.len() && mid.0.fired[k] == id;
        if k >= st.fired.len() {
            let e = mid.1[k - st.fired.len()];
            assert(ids_of(mid.1)[k - st.fired.len()] == e.0.id@);
            assert(entry_ok(md, lt, rs.take(i), e));
            let j = choose|j: int| 0 <= j < rs.take(i).len() && rs.take(i)[j] == e.0;
            assert(rs[j].id@ == id);
        } else {
            assert(st.fired[k] == id);
        }
    }
}

/// Rule `rs[i]` alerts in a pass when its turn comes with the rule not yet in
/// the ledger and a match that alerts; the entry is then the only one with
/// its id, and carries the match of its turn.
proof fn lemma_turn_alerts(md: CallMetadata, lt: Seq<char>, rs: Seq<Rule>, st: StateView, i: int)
    requires
        0 <= i < rs.len(),
        unique_ids(rs),
        !st.fired.contains(rs[i].id@),
        st.fired.no_duplicates(),
        rule_step(md, lt, rs[i], pass(md, lt, rs.take(i), st).0).1 is Some,
    ensures
        ({
            let out = pass(md, lt, rs, st).1;
            let f = rule_step(md, lt, rs[i], pass(md, lt, rs.take(i), st).0).1.unwrap();
            &&& exists|a: int| 0 <= a < out.len() && #[trigger] out[a] == (rs[i], f)
            &&& forall|a: int, b: int|
                0 <= a < out.len() && 0 <= b < out.len() && out[a].0.id@ == rs[i].id@
                    && out[b].0.id@ == rs[i].id@ ==> a == b
        }),
{
    let id = rs[i].id@;
    let mid = pass(md, lt, rs.take(i), st);
    lemma_pass(md, lt, rs.take(i), st);
    let f = rule_step(md, lt, rs[i], mid.0).1.unwrap();
    lemma_step(md, lt, rs[i], mid.0);
    assert(rs.take(i + 1).drop_last() =~= rs.take(i));
    assert(rs.take(i + 1).last() == rs[i]);
    let after = pass(md, lt, rs.take(i + 1), st);
    assert(after.0.fired.contains(id)) by {
        assert(after.0.fired[after.0.fired.len() - 1] == id);
    }
    lemma_pass_prefix(md, lt, rs, st, i + 1);
    let p = pass(md, lt, rs, st);
    lemma_pass(md, lt, rs, st);
    assert(p.0.fired.contains(id));
    let k = choose|k: int| 0 <= k < p.0.fired.len() && p.0.fired[k] == id;
    assert(k >= st.fired.len());
    let a = k - st.fired.len();
    assert(ids_of(p.1)[a] == p.1[a].0.id@);
    assert(entry_ok(md, lt, rs, p.1[a]));
    let j = choose|j: int| 0 <= j < rs.len() && rs[j] == p.1[a].0;
    assert(j == i);
    if rs[i].requires_metadata {
        assert(p.1[a] == (rs[i], f));
    } else {
        assert(p.1[a].1 == f);
        assert(p.1[a] == (rs[i], f));
    }
    assert forall|x: int, y: int|
        0 <= x < p.1.len() && 0 <= y < p.1.len() && p.1[x].0.id@ == id && p.1[y].0.id@ == id implies x
        == y by {
        assert(ids_of(p.1)[x] == id);
        assert(ids_of(p.1)[y] == id);
        assert(p.0.fired[st.fired.len() + x] == id);
        assert(p.0.fired[st.fired.len() + y] == id);
    }
}


/// Whether disclosure `d` has been recorded in `st`.
pub open spec fn disclosed(st: StateView, d: Disclosure) -> bool {
    match d {
        Disclosure::SellerIdentity => st.disclosures.seller_identified,
        Disclosure::SalesPurpose => st.disclosures.sales_purpose_stated,
        Disclosure::ProductDescription => st.disclosures.product_described,
        Disclosure::CallbackNumber => st.disclosures.callback_provided,
        Disclosure::RecordingNotice => st.disclosures.recording_disclosed,
    }
}

/// The do-not-call bookkeeping of `st` is in order: a do-not-call request is
/// recorded exactly when the request rule has alerted, and every alert of the
/// follow-up rule comes after an alert of the request rule in the ledger.
pub open spec fn dnc_ordered(st: StateView) -> bool {
    &&& st.dnc_requested <==> st.fired.contains("DNC-001"@)
    &&& forall|b: int|
        0 <= b < st.fired.len() && #[trigger] st.fired[b] == "DNC-002"@ ==> exists|a: int|
            0 <= a < b && st.fired[a] == "DNC-001"@
}

/// The invariant of every conversation state that evaluations reach: the
/// ledger holds no id twice, the do-not-call bookkeeping is in order, and no
/// disclosure detector is in the ledger.
pub open spec fn consistent(st: StateView) -> bool {
    &&& st.fired.no_duplicates()
    &&& dnc_ordered(st)
    &&& forall|k: int| 0 <= k < st.fired.len() ==> !(effect_of(#[trigger] st.fired[k]) is Detect)
}

proof fn lemma_dnc_ids()
    ensures
        "DNC-001"@ != "DNC-002"@,
        effect_of("DNC-001"@) == RuleEffect::RecordDncRequest,
        effect_of("DNC-002"@) == RuleEffect::RequireDncRequest,
{
    reveal_strlit("DNC-001");
    reveal_strlit("DNC-002");
    assert("DNC-001"@[6] != "DNC-002"@[6]);
}

/// One rule's turn keeps a state consistent.
proof fn lemma_step_consistent(md: CallMetadata, lt: Seq<char>, r: Rule, st: StateView)
    requires
        consistent(st),
    ensures
        consistent(rule_step(md, lt, r, st).0),
{
    lemma_step(md, lt, r, st);
    lemma_dnc_ids();
    lemma_metadata_ids();
    let s = rule_step(md, lt, r, st);
    if s.1 is Some {
        let id = r.id@;
        let n = st.fired.len();
        assert(s.0.fired[n as int] == id);
        assert forall|k: int| 0 <= k < n implies s.0.fired[k] == st.fired[k] by {}
        assert(s.0.fired.no_duplicates()) by {
            assert forall|a: int, b: int|
                0 <= a < s.0.fired.len() && 0 <= b < s.0.fired.len() && a != b implies s.0.fired[a]
                != s.0.fired[b] by {
                if a == n {
                    assert(st.fired[b] == s.0.fired[b]);
                } else if b == n {
                    assert(st.fired[a] == s.0.fired[a]);
                }
            }
        }
        if r.requires_metadata {
            assert(id == "DNC-003"@ || id == "PREC-001"@);
            assert(effect_of(id) == RuleEffect::Plain);
        }
        if effect_of(id) == RuleEffect::RecordDncRequest {
            assert(s.0.dnc_requested);
            assert(s.0.fired.contains("DNC-001"@)) by {
                assert(id == "DNC-001"@);
            }
        }
        if effect_of(id) == RuleEffect::RequireDncRequest {
            assert(id == "DNC-002"@);
            assert(st.fired.contains("DNC-001"@));
            let a = choose|a: int| 0 <= a < n && st.fired[a] == "DNC-001"@;
            assert(s.0.fired[a] == "DNC-001"@);
        }
        if effect_of(id) != RuleEffect::RecordDncRequest {
            assert(id != "DNC-001"@);
            assert(s.0.dnc_requested == st.dnc_requested);
            if st.fired.contains("DNC-001"@) {
                let a = choose|a: int| 0 <= a < n && st.fired[a] == "DNC-001"@;
                assert(s.0.fired[a] == "DNC-001"@);
            }
            if s.0.fired.contains("DNC-001"@) {
                let a = choose|a: int| 0 <= a < s.0.fired.len() && s.0.fired[a] == "DNC-001"@;
                assert(a < n);
                assert(st.fired[a] == "DNC-001"@);
            }
        }
        assert forall|b: int|
            0 <= b < s.0.fired.len() && #[trigger] s.0.fired[b] == "DNC-002"@ implies exists|a: int|
            0 <= a < b && s.0.fired[a] == "DNC-001"@ by {
            if b < n {
                assert(st.fired[b] == "DNC-002"@);
                let a = choose|a: int| 0 <= a < b && st.fired[a] == "DNC-001"@;
                assert(s.0.fired[a] == "DNC-001"@);
            } else {
                assert(id == "DNC-002"@);
                let a = choose|a: int| 0 <= a < n && st.fired[a] == "DNC-001"@;
                assert(s.0.fired[a] == "DNC-001"@);
            }
        }
        assert forall|k: int| 0 <= k < s.0.fired.len() implies !(effect_of(
            #[trigger] s.0.fired[k],
        ) is Detect) by {
            if k < n {
                assert(s.0.fired[k] == st.fired[k]);
            }
        }
    } else {
        assert(s.0.fired == st.fired);
        if effect_of(r.id@) == RuleEffect::RecordDncRequest && !r.requires_metadata {
            assert(s.0.dnc_requested == st.dnc_requested);
        }
    }
}

proof fn lemma_pass_consistent(md: CallMetadata, lt: Seq<char>, rs: Seq<Rule>, st: StateView)
    requires
        consistent(st),
    ensures
        consistent(pass(md, lt, rs, st).0),
    decreases rs.len(),
{
    if rs.len() > 0 {
        lemma_pass_consistent(md, lt, rs.drop_last(), st);
        lemma_step_consistent(md, lt, rs.last(), pass(md, lt, rs.drop_last(), st).0);
    }
}

/// A call starts in a consistent state.
pub proof fn theorem_initial_consistent()
    ensures
        consistent(initial_state()),
{
}

/// Every evaluation keeps the conversation state consistent: across repeated
/// evaluations of one call no rule id enters the ledger twice, and the
/// do-not-call follow-up rule never alerts before the request rule has.
pub proof fn theorem_evaluation_consistent(md: CallMetadata, t: Seq<char>, rs: Seq<Rule>, st: StateView)
    requires
        consistent(st),
    ensures
        consistent(evaluation(md, t, rs, st).0),
{
    lemma_pass_consistent(md, lower_of(t), rs, st);
}

/// An evaluation reports exactly the rules it appends to the ledger, in
/// order, none of them already in it and none twice: the cumulative alerts of
/// a call never repeat a rule id.
pub proof fn theorem_alerts_never_repeat(md: CallMetadata, t: Seq<char>, rs: Seq<Rule>, st: StateView)
    requires
        consistent(st),
    ensures
        ({
            let p = evaluation(md, t, rs, st);
            &&& p.0.fired == st.fired + ids_of(p.1)
            &&& p.0.fired.no_duplicates()
        }),
{
    lemma_pass(md, lower_of(t), rs, st);
    lemma_pass_consistent(md, lower_of(t), rs, st);
}

/// Two successive evaluations of one call together report no rule id twice.
pub proof fn theorem_two_evaluations_never_repeat(
    md1: CallMetadata,
    t1: Seq<char>,
    md2: CallMetadata,
    t2: Seq<char>,
    rs: Seq<Rule>,
    st: StateView,
)
    requires
        consistent(st),
    ensures
        ({
            let first = evaluation(md1, t1, rs, st);
            let second = evaluation(md2, t2, rs, first.0);
            (ids_of(first.1) + ids_of(second.1)).no_duplicates()
        }),
{
    let first = evaluation(md1, t1, rs, st);
    theorem_alerts_never_repeat(md1, t1, rs, st);
    theorem_evaluation_consistent(md1, t1, rs, st);
    let second = evaluation(md2, t2, rs, first.0);
    theorem_alerts_never_repeat(md2, t2, rs, first.0);
    let both = ids_of(first.1) + ids_of(second.1);
    let n = st.fired.len();
    assert(second.0.fired =~= st.fired + both);
    assert forall|a: int, b: int| 0 <= a < both.len() && 0 <= b < both.len() && a != b implies both[a]
        != both[b] by {
        assert(second.0.fired[n + a] == both[a]);
        assert(second.0.fired[n + b] == both[b]);
    }
}

/// A rule that is enabled, neither metadata-driven nor a disclosure detector,
/// and not yet in the ledger alerts exactly once when one of its trigger
/// phrases occurs in the transcript (compared lower-cased): with a phrase
/// match, hence confidence 90, whose span in the lower-cased transcript holds
/// one of its phrases. The do-not-call follow-up rule needs a recorded
/// do-not-call request as well.
pub proof fn theorem_trigger_alerts(
    md: CallMetadata,
    t: Seq<char>,
    rs: Seq<Rule>,
    st: StateView,
    i: int,
    k: int,
)
    requires
        0 <= i < rs.len(),
        unique_ids(rs),
        consistent(st),
        rs[i].enabled,
        !rs[i].requires_metadata,
        !(effect_of(rs[i].id@) is Detect),
        effect_of(rs[i].id@) is RequireDncRequest ==> st.dnc_requested,
        !st.fired.contains(rs[i].id@),
        0 <= k < rs[i].triggers@.len(),
        first_occurrence(lower_of(t), lower_of(rs[i].triggers@[k]@)) is Some,
        lower_of(t).len() <= usize::MAX,
    ensures
        ({
            let out = evaluation(md, t, rs, st).1;
            &&& exists|a: int|
                0 <= a < out.len() && (#[trigger] out[a]).0 == rs[i] && out[a].1.kind
                    == MatchKind::Phrase && confidence_of(out[a].1.kind) == 90 && exists|m: int|
                    0 <= m < rs[i].triggers@.len() && lower_of(t).subrange(
                        out[a].1.start as int,
                        out[a].1.end as int,
                    ) == lower_of(#[trigger] rs[i].triggers@[m]@)
            &&& forall|a: int, b: int|
                0 <= a < out.len() && 0 <= b < out.len() && out[a].0.id@ == rs[i].id@
                    && out[b].0.id@ == rs[i].id@ ==> a == b
        }),
{
    let lt = lower_of(t);
    let r = rs[i];
    lemma_not_yet(md, lt, rs, st, i);
    lemma_pass(md, lt, rs.take(i), st);
    let mid = pass(md, lt, rs.take(i), st);
    lemma_phrase_hit(lt, r.triggers@, 0, k);
    let f = phrase_hit_from(lt, r.triggers@, 0).unwrap();
    assert(text_hit(lt, r) == Some(f));
    assert(rule_step(md, lt, r, mid.0).1 == Some(f));
    lemma_turn_alerts(md, lt, rs, st, i);
    let out = pass(md, lt, rs, st).1;
    let a = choose|a: int| 0 <= a < out.len() && #[trigger] out[a] == (rs[i], f);
    assert(out[a].0 == rs[i]);
}

/// Disclosure detectors never alert: no entry of an evaluation belongs to a
/// rule whose match records a disclosure.
pub proof fn theorem_detectors_never_alert(md: CallMetadata, t: Seq<char>, rs: Seq<Rule>, st: StateView)
    ensures
        forall|k: int|
            0 <= k < evaluation(md, t, rs, st).1.len() ==> !(effect_of(
                (#[trigger] evaluation(md, t, rs, st).1[k]).0.id@,
            ) is Detect),
{
    lemma_pass(md, lower_of(t), rs, st);
    assert forall|k: int| 0 <= k < evaluation(md, t, rs, st).1.len() implies !(effect_of(
        (#[trigger] evaluation(md, t, rs, st).1[k]).0.id@,
    ) is Detect) by {
        assert(entry_ok(md, lower_of(t), rs, evaluation(md, t, rs, st).1[k]));
    }
}

/// A detector rule whose pattern or phrase matches records its disclosure,
/// and recorded disclosures persist through every later evaluation.
pub proof fn theorem_detector_records(
    md: CallMetadata,
    t: Seq<char>,
    rs: Seq<Rule>,
    st: StateView,
    i: int,
    d: Disclosure,
)
    requires
        0 <= i < rs.len(),
        unique_ids(rs),
        consistent(st),
        rs[i].enabled,
        !rs[i].requires_metadata,
        effect_of(rs[i].id@) == RuleEffect::Detect(d),
        text_hit(lower_of(t), rs[i]) is Some,
    ensures
        disclosed(evaluation(md, t, rs, st).0, d),
{
    let lt = lower_of(t);
    assert(!st.fired.contains(rs[i].id@)) by {
        if st.fired.contains(rs[i].id@) {
            let k = choose|k: int| 0 <= k < st.fired.len() && st.fired[k] == rs[i].id@;
            assert(!(effect_of(st.fired[k]) is Detect));
        }
    }
    lemma_not_yet(md, lt, rs, st, i);
    assert(rs.take(i + 1).drop_last() =~= rs.take(i));
    assert(rs.take(i + 1).last() == rs[i]);
    assert(disclosed(pass(md, lt, rs.take(i + 1), st).0, d));
    lemma_pass_prefix(md, lt, rs, st, i + 1);
}

/// Recorded disclosures persist through an evaluation, and once the seller's
/// identity (or the sales purpose) is recorded, the contextual suggestion
/// asking for it is no longer produced.
pub proof fn theorem_disclosure_silences_suggestion(
    md: CallMetadata,
    t: Seq<char>,
    rs: Seq<Rule>,
    st: StateView,
)
    ensures
        ({
            let after = evaluation(md, t, rs, st).0;
            &&& flags_grow(st, after)
            &&& st.disclosures.seller_identified ==> !contextual_lines(md, t, after).contains(
                (identify_line(), 80u8),
            )
            &&& st.disclosures.sales_purpose_stated ==> !contextual_lines(md, t, after).contains(
                (purpose_line(), 80u8),
            )
        }),
{
    lemma_pass(md, lower_of(t), rs, st);
    let after = evaluation(md, t, rs, st).0;
    reveal_strlit(
        "Identify yourself and your company: 'Hi, my name is [Name] calling from [Company Name].'",
    );
    reveal_strlit("Disclose the sales purpose: 'I'm calling today with a special offer for you.'");
    assert(identify_line()[0] != purpose_line()[0]);
    let c = contextual_lines(md, t, after);
    if c.contains((identify_line(), 80u8)) && after.disclosures.seller_identified {
        let k = choose|k: int| 0 <= k < c.len() && c[k] == (identify_line(), 80u8);
        assert(c[k].0 == purpose_line());
    }
    if c.contains((purpose_line(), 80u8)) && after.disclosures.sales_purpose_stated {
        let k = choose|k: int| 0 <= k < c.len() && c[k] == (purpose_line(), 80u8);
        assert(c[k].0 == identify_line());
    }
}

/// The national-registry rule and the prerecorded-voice rule decide from the
/// call metadata alone.
pub proof fn theorem_metadata_conditions(md: CallMetadata)
    ensures
        metadata_alerts(md, "DNC-003"@) == (md.is_dnc_listed && !md.has_prior_consent),
        metadata_alerts(md, "PREC-001"@) == (md.is_prerecorded && !md.has_prior_consent),
{
    reveal_strlit("DNC-003");
    reveal_strlit("PREC-001");
    assert("PREC-001"@.len() != "DNC-003"@.len());
}

/// An enabled metadata-driven rule not yet in the ledger alerts in an
/// evaluation exactly when its metadata condition holds, whatever the
/// transcript.
pub proof fn theorem_metadata_rule_alerts(
    md: CallMetadata,
    t: Seq<char>,
    rs: Seq<Rule>,
    st: StateView,
    i: int,
)
    requires
        0 <= i < rs.len(),
        unique_ids(rs),
        consistent(st),
        rs[i].enabled,
        rs[i].requires_metadata,
        !st.fired.contains(rs[i].id@),
    ensures
        (exists|a: int|
            0 <= a < evaluation(md, t, rs, st).1.len() && (#[trigger] evaluation(
                md,
                t,
                rs,
                st,
            ).1[a]).0.id@ == rs[i].id@) == metadata_alerts(md, rs[i].id@),
{
    let lt = lower_of(t);
    let out = pass(md, lt, rs, st).1;
    lemma_not_yet(md, lt, rs, st, i);
    lemma_pass(md, lt, rs, st);
    if metadata_alerts(md, rs[i].id@) {
        lemma_turn_alerts(md, lt, rs, st, i);
        let f = rule_step(md, lt, rs[i], pass(md, lt, rs.take(i), st).0).1.unwrap();
        let a = choose|a: int| 0 <= a < out.len() && #[trigger] out[a] == (rs[i], f);
        assert(out[a].0.id@ == rs[i].id@);
    } else {
        if exists|a: int| 0 <= a < out.len() && (#[trigger] out[a]).0.id@ == rs[i].id@ {
            let a = choose|a: int| 0 <= a < out.len() && (#[trigger] out[a]).0.id@ == rs[i].id@;
            assert(entry_ok(md, lt, rs, out[a]));
            let j = choose|j: int| 0 <= j < rs.len() && rs[j] == out[a].0;
            assert(j == i);
        }
    }
}

/// After a reset, a rule that alerted earlier in the call alerts again on its
/// trigger phrase, while without the reset it is not reported again.
pub proof fn theorem_refires_after_reset(
    md: CallMetadata,
    t: Seq<char>,
    rs: Seq<Rule>,
    before: StateView,
    i: int,
    k: int,
)
    requires
        0 <= i < rs.len(),
        unique_ids(rs),
        consistent(before),
        before.fired.contains(rs[i].id@),
        rs[i].enabled,
        !rs[i].requires_metadata,
        !(effect_of(rs[i].id@) is Detect),
        !(effect_of(rs[i].id@) is RequireDncRequest),
        0 <= k < rs[i].triggers@.len(),
        first_occurrence(lower_of(t), lower_of(rs[i].triggers@[k]@)) is Some,
        lower_of(t).len() <= usize::MAX,
    ensures
        exists|a: int|
            0 <= a < evaluation(md, t, rs, initial_state()).1.len() && (#[trigger] evaluation(
                md,
                t,
                rs,
                initial_state(),
            ).1[a]).0 == rs[i],
        forall|a: int|
            0 <= a < evaluation(md, t, rs, before).1.len() ==> (#[trigger] evaluation(
                md,
                t,
                rs,
                before,
            ).1[a]).0.id@ != rs[i].id@,
{
    theorem_trigger_alerts(md, t, rs, initial_state(), i, k);
    let p = evaluation(md, t, rs, before);
    theorem_alerts_never_repeat(md, t, rs, before);
    assert forall|a: int| 0 <= a < p.1.len() implies (#[trigger] p.1[a]).0.id@ != rs[i].id@ by {
        let n = before.fired.len();
        let j = choose|j: int| 0 <= j < n && before.fired[j] == rs[i].id@;
        assert(p.0.fired[j] == rs[i].id@);
        assert(p.0.fired[n + a] == ids_of(p.1)[a]);
    }
}

} // verus!
