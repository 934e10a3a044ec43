//! Replay verification: checking a block's replay pins against the hashes
//! observed at verification time.
//!
//! Producers pin hashes in [`ReplayProvenance`] and declare which of them
//! must match in [`ReplayMetadata::required_hashes`]. [`verify_replay`] is
//! the consumer side: it reports whether the block may be replayed, and if
//! not, precisely why.

use vstd::prelude::*;

use crate::text::{clone_strings, opt_text, str_eq, texts};

verus! {

/// The replay declaration of a block: whether it may be replayed, which
/// pinned hashes must match, and (when it may not) why.
#[derive(Debug, PartialEq, Eq)]
pub struct ReplayMetadata {
    /// Whether the producer declares the block replayable.
    pub replayable: bool,
    /// The hash fields (`input_hash`, `plan_hash`, …) that must match.
    pub required_hashes: Vec<String>,
    /// The producer's reasons when not replayable.
    pub reasons: Vec<String>,
}

/// The replay pins carried by a block: four typed hash slots, an optional
/// seed and the replay declaration.
#[derive(Debug, PartialEq, Eq)]
pub struct ReplayProvenance {
    /// Hash of the inspected project.
    pub project_hash: Option<String>,
    /// Hash of the explicit input.
    pub input_hash: Option<String>,
    /// Hash of the plan.
    pub plan_hash: Option<String>,
    /// Hash of the result.
    pub result_hash: Option<String>,
    /// Seed of a randomized producer.
    pub seed: Option<u64>,
    /// The replay declaration.
    pub replay: ReplayMetadata,
}

/// The hashes observed at verification time, to check against a block's
/// pinned provenance.
#[derive(Debug, PartialEq, Eq)]
pub struct ObservedHashes {
    /// Hash of the inspected project, if observed.
    pub project_hash: Option<String>,
    /// Hash of the explicit input, if observed.
    pub input_hash: Option<String>,
    /// Hash of the plan, if observed.
    pub plan_hash: Option<String>,
    /// Hash of the result, if observed.
    pub result_hash: Option<String>,
}

/// One required hash that did not match.
#[derive(Debug, PartialEq, Eq)]
pub struct HashMismatch {
    /// The hash field (`input_hash`, `plan_hash`, …).
    pub field: String,
    /// The hash pinned on the block.
    pub expected: String,
    /// The hash observed now.
    pub observed: String,
}

/// The outcome of replay verification.
#[derive(Debug, PartialEq, Eq)]
pub enum ReplayStatus {
    /// Every required hash matches (or none are required).
    Replayable,
    /// The block's provenance declares it non-replayable; `reasons` says why.
    NotReplayable {
        /// The producer's reasons.
        reasons: Vec<String>,
    },
    /// Required hashes are missing (absent on the block, unobserved, or an
    /// unknown field name) or mismatched; both are reported together.
    Failed {
        /// Required hash fields with no value to compare.
        missing: Vec<String>,
        /// Required hashes whose observed values differ.
        mismatches: Vec<HashMismatch>,
    },
}

impl Default for ReplayMetadata {
    /// Not replayable, with no required hashes and no reasons.
    fn default() -> (r: ReplayMetadata)
        ensures
            !r.replayable,
            r.required_hashes@.len() == 0,
            r.reasons@.len() == 0,
    {
        ReplayMetadata { replayable: false, required_hashes: Vec::new(), reasons: Vec::new() }
    }
}

impl Default for ReplayProvenance {
    /// No pins and the default replay declaration.
    fn default() -> (r: ReplayProvenance)
        ensures
            r.project_hash is None,
            r.input_hash is None,
            r.plan_hash is None,
            r.result_hash is None,
            r.seed is None,
            !r.replay.replayable,
            r.replay.required_hashes@.len() == 0,
            r.replay.reasons@.len() == 0,
    {
        ReplayProvenance {
            project_hash: None,
            input_hash: None,
            plan_hash: None,
            result_hash: None,
            seed: None,
            replay: ReplayMetadata::default(),
        }
    }
}

impl Default for ObservedHashes {
    /// Nothing observed.
    fn default() -> (r: ObservedHashes)
        ensures
            r.project_hash is None,
            r.input_hash is None,
            r.plan_hash is None,
            r.result_hash is None,
    {
        ObservedHashes { project_hash: None, input_hash: None, plan_hash: None, result_hash: None }
    }
}

/// The mathematical form of a [`ReplayStatus`].
pub enum ReplayVerdict {
    Replayable,
    NotReplayable(Seq<Seq<char>>),
    Failed(Seq<Seq<char>>, Seq<(Seq<char>, Seq<char>, Seq<char>)>),
}

impl View for HashMismatch {
    type V = (Seq<char>, Seq<char>, Seq<char>);

    open spec fn view(&self) -> (Seq<char>, Seq<char>, Seq<char>) {
        (self.field@, self.expected@, self.observed@)
    }
}

impl View for ReplayStatus {
    type V = ReplayVerdict;

    open spec fn view(&self) -> ReplayVerdict {
        match self {
            ReplayStatus::Replayable => ReplayVerdict::Replayable,
            ReplayStatus::NotReplayable { reasons } => ReplayVerdict::NotReplayable(texts(reasons@)),
            ReplayStatus::Failed { missing, mismatches } => ReplayVerdict::Failed(
                texts(missing@),
                mismatches@.map_values(|m: HashMismatch| m@),
            ),
        }
    }
}

/// The pinned and the observed value of the hash slot named `field`; an
/// unknown name has neither.
pub open spec fn hash_slots(
    p: ReplayProvenance,
    o: ObservedHashes,
    field: Seq<char>,
) -> (Option<Seq<char>>, Option<Seq<char>>) {
    if field == "project_hash"@ {
        (opt_text(p.project_hash), opt_text(o.project_hash))
    } else if field == "input_hash"@ {
        (opt_text(p.input_hash), opt_text(o.input_hash))
    } else if field == "plan_hash"@ {
        (opt_text(p.plan_hash), opt_text(o.plan_hash))
    } else if field == "result_hash"@ {
        (opt_text(p.result_hash), opt_text(o.result_hash))
    } else {
        (None, None)
    }
}

/// A required field is missing when either side has no value for it.
pub open spec fn is_missing(p: ReplayProvenance, o: ObservedHashes, field: Seq<char>) -> bool {
    hash_slots(p, o, field).0 is None || hash_slots(p, o, field).1 is None
}

/// A required field is mismatched when both sides have values that differ.
pub open spec fn is_mismatched(p: ReplayProvenance, o: ObservedHashes, field: Seq<char>) -> bool {
    !is_missing(p, o, field) && hash_slots(p, o, field).0->0 != hash_slots(p, o, field).1->0
}

/// The missing fields among `req`, in order.
pub open spec fn missing_fields(
    p: ReplayProvenance,
    o: ObservedHashes,
    req: Seq<Seq<char>>,
) -> Seq<Seq<char>>
    decreases req.len(),
{
    if req.len() == 0 {
        Seq::empty()
    } else {
        let prev = missing_fields(p, o, req.drop_last());
        if is_missing(p, o, req.last()) {
            prev.push(req.last())
        } else {
            prev
        }
    }
}

/// The `(field, expected, observed)` triples of the mismatched fields among
/// `req`, in order.
pub open spec fn mismatched_fields(
    p: ReplayProvenance,
    o: ObservedHashes,
    req: Seq<Seq<char>>,
) -> Seq<(Seq<char>, Seq<char>, Seq<char>)>
    decreases req.len(),
{
    if req.len() == 0 {
        Seq::empty()
    } else {
        let prev = mismatched_fields(p, o, req.drop_last());
        let f = req.last();
        if is_mismatched(p, o, f) {
            prev.push((f, hash_slots(p, o, f).0->0, hash_slots(p, o, f).1->0))
        } else {
            prev
        }
    }
}

/// What replay verification decides for a block's pins and the observed
/// hashes.
pub open spec fn replay_verdict(p: ReplayProvenance, o: ObservedHashes) -> ReplayVerdict {
    if !p.replay.replayable {
        ReplayVerdict::NotReplayable(texts(p.replay.reasons@))
    } else {
        let req = texts(p.replay.required_hashes@);
        let missing = missing_fields(p, o, req);
        let mismatches = mismatched_fields(p, o, req);
        if missing.len() == 0 && mismatches.len() == 0 {
            ReplayVerdict::Replayable
        } else {
            ReplayVerdict::Failed(missing, mismatches)
        }
    }
}


/// The name of one of the four hash slots.
pub open spec fn is_known_slot(field: Seq<char>) -> bool {
    field == "project_hash"@ || field == "input_hash"@ || field == "plan_hash"@ || field
        == "result_hash"@
}

proof fn lemma_missing_fields(p: ReplayProvenance, o: ObservedHashes, req: Seq<Seq<char>>)
    ensures
        missing_fields(p, o, req).len() <= req.len(),
        forall|f: Seq<char>|
            #![trigger missing_fields(p, o, req).contains(f)]
            missing_fields(p, o, req).contains(f) <==> (req.contains(f) && is_missing(p, o, f)),
    decreases req.len(),
{
    if req.len() > 0 {
        let prev = req.drop_last();
        let last = req.last();
        lemma_missing_fields(p, o, prev);
        let pm = missing_fields(p, o, prev);
        let mf = missing_fields(p, o, req);
        assert(mf == if is_missing(p, o, last) { pm.push(last) } else { pm });
        assert forall|f: Seq<char>| #![trigger mf.contains(f)]
            mf.contains(f) <==> (req.contains(f) && is_missing(p, o, f)) by {
            if req.contains(f) && is_missing(p, o, f) {
                let k = choose|k: int| 0 <= k < req.len() && req[k] == f;
                if k < req.len() - 1 {
                    assert(prev[k] == f);
                    assert(prev.contains(f));
                    assert(pm.contains(f));
                    let j = choose|j: int| 0 <= j < pm.len() && pm[j] == f;
                    assert(mf[j] == f);
                } else {
                    assert(f == last);
                    assert(mf[mf.len() - 1] == f);
                }
            }
            if mf.contains(f) {
                let k = choose|k: int| 0 <= k < mf.len() && mf[k] == f;
                if k < pm.len() {
                    assert(pm[k] == f);
                    assert(pm.contains(f));
                    let j = choose|j: int| 0 <= j < prev.len() && prev[j] == f;
                    assert(req[j] == f);
                } else {
                    assert(f == last);
                    assert(req[req.len() - 1] == f);
                }
            }
        }
    }
}

proof fn lemma_mismatched_fields(p: ReplayProvenance, o: ObservedHashes, req: Seq<Seq<char>>)
    ensures
        mismatched_fields(p, o, req).len() <= req.len(),
        forall|k: int|
            #![trigger mismatched_fields(p, o, req)[k]]
            0 <= k < mismatched_fields(p, o, req).len() ==> {
                let m = mismatched_fields(p, o, req)[k];
                &&& req.contains(m.0)
                &&& is_mismatched(p, o, m.0)
                &&& hash_slots(p, o, m.0).0 == Some(m.1)
                &&& hash_slots(p, o, m.0).1 == Some(m.2)
            },
        forall|i: int|
            #![trigger req[i]]
            0 <= i < req.len() && is_mismatched(p, o, req[i]) ==> exists|k: int|
                0 <= k < mismatched_fields(p, o, req).len() && (#[trigger] mismatched_fields(
                    p,
                    o,
                    req,
                )[k]).0 == req[i],
    decreases req.len(),
{
    if req.len() > 0 {
        let prev = req.drop_last();
        lemma_mismatched_fields(p, o, prev);
        let mm = mismatched_fields(p, o, req);
        let pm = mismatched_fields(p, o, prev);
        assert forall|k: int| #![trigger mm[k]] 0 <= k < mm.len() implies {
            let m = mm[k];
            &&& req.contains(m.0)
            &&& is_mismatched(p, o, m.0)
            &&& hash_slots(p, o, m.0).0 == Some(m.1)
            &&& hash_slots(p, o, m.0).1 == Some(m.2)
        } by {
            if k < pm.len() {
                assert(mm[k] == pm[k]);
                let j = choose|j: int| 0 <= j < prev.len() && prev[j] == pm[k].0;
                assert(req[j] == prev[j]);
            } else {
                assert(req[req.len() - 1] == req.last());
            }
        }
        assert forall|i: int|
            #![trigger req[i]]
            0 <= i < req.len() && is_mismatched(p, o, req[i]) implies exists|k: int|
                0 <= k < mm.len() && (#[trigger] mm[k]).0 == req[i] by {
            if i < req.len() - 1 {
                assert(prev[i] == req[i]);
                let k = choose|k: int| 0 <= k < pm.len() && (#[trigger] pm[k]).0 == prev[i];
                assert(mm[k] == pm[k]);
            } else {
                assert(mm[mm.len() - 1].0 == req[i]);
            }
        }
    }
}

/// Replay compares the pinned hashes with the observation: each of the four
/// slots pairs the block's own field with the observed field of the same
/// name, and any other name has neither.
pub proof fn law_slots_pair_pinned_with_observed(p: ReplayProvenance, o: ObservedHashes, f: Seq<char>)
    ensures
        hash_slots(p, o, "project_hash"@) == (opt_text(p.project_hash), opt_text(o.project_hash)),
        hash_slots(p, o, "input_hash"@) == (opt_text(p.input_hash), opt_text(o.input_hash)),
        hash_slots(p, o, "plan_hash"@) == (opt_text(p.plan_hash), opt_text(o.plan_hash)),
        hash_slots(p, o, "result_hash"@) == (opt_text(p.result_hash), opt_text(o.result_hash)),
        f != "project_hash"@ && f != "input_hash"@ && f != "plan_hash"@ && f != "result_hash"@
            ==> hash_slots(p, o, f) == (None::<Seq<char>>, None::<Seq<char>>),
{
    lemma_slot_names_distinct();
}

proof fn lemma_slot_names_distinct()
    ensures
        "project_hash"@ != "input_hash"@,
        "project_hash"@ != "plan_hash"@,
        "project_hash"@ != "result_hash"@,
        "input_hash"@ != "plan_hash"@,
        "input_hash"@ != "result_hash"@,
        "plan_hash"@ != "result_hash"@,
{
    reveal_strlit("project_hash");
    reveal_strlit("input_hash");
    reveal_strlit("plan_hash");
    reveal_strlit("result_hash");
    assert("project_hash"@[0] != "input_hash"@[0]);
    assert("project_hash"@[1] != "plan_hash"@[1]);
    assert("project_hash"@[0] != "result_hash"@[0]);
    assert("input_hash"@[0] != "plan_hash"@[0]);
    assert("input_hash"@[0] != "result_hash"@[0]);
    assert("plan_hash"@[0] != "result_hash"@[0]);
}

/// A block that requires one of its four hash slots is not replayable when
/// the hash observed now differs from the one it pins (or either is absent).
pub proof fn law_changed_observation_is_not_replayable(p: ReplayProvenance, o: ObservedHashes, f: Seq<char>)
    requires
        texts(p.replay.required_hashes@).contains(f),
    ensures
        f == "project_hash"@ && opt_text(p.project_hash) != opt_text(o.project_hash)
            ==> !(replay_verdict(p, o) is Replayable),
        f == "input_hash"@ && opt_text(p.input_hash) != opt_text(o.input_hash)
            ==> !(replay_verdict(p, o) is Replayable),
        f == "plan_hash"@ && opt_text(p.plan_hash) != opt_text(o.plan_hash)
            ==> !(replay_verdict(p, o) is Replayable),
        f == "result_hash"@ && opt_text(p.result_hash) != opt_text(o.result_hash)
            ==> !(replay_verdict(p, o) is Replayable),
        opt_text(p.project_hash) is None && f == "project_hash"@ ==> !(replay_verdict(p, o) is Replayable),
{
    law_slots_pair_pinned_with_observed(p, o, f);
    law_replayable_iff_required_hashes_match(p, o);
    let req = texts(p.replay.required_hashes@);
    let i = choose|i: int| 0 <= i < req.len() && req[i] == f;
    assert(req[i] == f);
}

/// A block declared non-replayable is reported `NotReplayable` with its
/// producer's reasons, whatever was observed.
pub proof fn law_not_replayable_reports_reasons(p: ReplayProvenance, o: ObservedHashes)
    requires
        !p.replay.replayable,
    ensures
        replay_verdict(p, o) == ReplayVerdict::NotReplayable(texts(p.replay.reasons@)),
{
}

/// A block is replayable exactly when it is declared replayable and every
/// required hash field is present on the block, observed, and equal.
pub proof fn law_replayable_iff_required_hashes_match(p: ReplayProvenance, o: ObservedHashes)
    ensures
        (replay_verdict(p, o) is Replayable) <==> (p.replay.replayable && forall|i: int|
            #![trigger texts(p.replay.required_hashes@)[i]]
            0 <= i < p.replay.required_hashes@.len() ==> {
                let f = texts(p.replay.required_hashes@)[i];
                &&& hash_slots(p, o, f).0 is Some
                &&& hash_slots(p, o, f).1 is Some
                &&& hash_slots(p, o, f).0 == hash_slots(p, o, f).1
            }),
{
    let req = texts(p.replay.required_hashes@);
    lemma_missing_fields(p, o, req);
    lemma_mismatched_fields(p, o, req);
    if p.replay.replayable {
        let mf = missing_fields(p, o, req);
        let mm = mismatched_fields(p, o, req);
        if mf.len() == 0 && mm.len() == 0 {
            assert forall|i: int| 0 <= i < req.len() implies {
                let f = #[trigger] req[i];
                &&& hash_slots(p, o, f).0 is Some
                &&& hash_slots(p, o, f).1 is Some
                &&& hash_slots(p, o, f).0 == hash_slots(p, o, f).1
            } by {
                assert(req.contains(req[i]));
                if is_missing(p, o, req[i]) {
                    assert(mf.contains(req[i]));
                }
            }
        } else if mf.len() > 0 {
            let f = mf[0];
            assert(mf.contains(f));
            let i = choose|i: int| 0 <= i < req.len() && req[i] == f;
            assert(is_missing(p, o, req[i]));
        } else {
            let f = mm[0].0;
            let i = choose|i: int| 0 <= i < req.len() && req[i] == f;
            assert(is_mismatched(p, o, req[i]));
        }
    }
}

/// A replayable block with no required hashes is always replayable.
pub proof fn law_no_requirements_is_replayable(p: ReplayProvenance, o: ObservedHashes)
    requires
        p.replay.replayable,
        p.replay.required_hashes@.len() == 0,
    ensures
        replay_verdict(p, o) is Replayable,
{
}

/// A failure report is exact: `missing` holds precisely the required fields
/// lacking a value on either side, `mismatches` precisely those whose values
/// differ (with the pinned and the observed value), and together they report
/// no more entries than there are required fields.
pub proof fn law_failure_report_is_exact(p: ReplayProvenance, o: ObservedHashes)
    requires
        p.replay.replayable,
    ensures
        replay_verdict(p, o) matches ReplayVerdict::Failed(missing, mismatches) ==> {
            let req = texts(p.replay.required_hashes@);
            &&& missing.len() + mismatches.len() > 0
            &&& missing.len() <= req.len()
            &&& mismatches.len() <= req.len()
            &&& forall|f: Seq<char>|
                #![trigger missing.contains(f)]
                missing.contains(f) <==> (req.contains(f) && is_missing(p, o, f))
            &&& forall|k: int|
                #![trigger mismatches[k]]
                0 <= k < mismatches.len() ==> {
                    let m = mismatches[k];
                    &&& req.contains(m.0)
                    &&& hash_slots(p, o, m.0).0 == Some(m.1)
                    &&& hash_slots(p, o, m.0).1 == Some(m.2)
                    &&& m.1 != m.2
                }
            &&& forall|i: int|
                #![trigger req[i]]
                0 <= i < req.len() && is_mismatched(p, o, req[i]) ==> exists|k: int|
                    0 <= k < mismatches.len() && (#[trigger] mismatches[k]).0 == req[i]
        },
{
    let req = texts(p.replay.required_hashes@);
    lemma_missing_fields(p, o, req);
    lemma_mismatched_fields(p, o, req);
}

/// Unknown required field names fail closed: a replayable block that
/// requires a field that is not one of the four hash slots always fails, with
/// that field reported missing.
pub proof fn law_unknown_field_fails_closed(p: ReplayProvenance, o: ObservedHashes, f: Seq<char>)
    requires
        p.replay.replayable,
        texts(p.replay.required_hashes@).contains(f),
        !is_known_slot(f),
    ensures
        replay_verdict(p, o) matches ReplayVerdict::Failed(missing, _) && missing.contains(f),
{
    let req = texts(p.replay.required_hashes@);
    lemma_missing_fields(p, o, req);
    assert(is_missing(p, o, f));
    assert(missing_fields(p, o, req).contains(f));
}

/// Observing exactly the hashes a block pins replays it precisely when every
/// required field names a slot that the block pins.
pub proof fn law_own_pins_replay(p: ReplayProvenance, o: ObservedHashes)
    requires
        p.replay.replayable,
        opt_text(o.project_hash) == opt_text(p.project_hash),
        opt_text(o.input_hash) == opt_text(p.input_hash),
        opt_text(o.plan_hash) == opt_text(p.plan_hash),
        opt_text(o.result_hash) == opt_text(p.result_hash),
    ensures
        (replay_verdict(p, o) is Replayable) <==> forall|i: int|
            #![trigger texts(p.replay.required_hashes@)[i]]
            0 <= i < p.replay.required_hashes@.len() ==> hash_slots(
                p,
                o,
                texts(p.replay.required_hashes@)[i],
            ).0 is Some,
{
    law_replayable_iff_required_hashes_match(p, o);
}

fn opt_as_str(o: &Option<String>) -> (r: Option<&str>)
    ensures
        match r {
            Some(s) => opt_text(*o) == Some(s@),
            None => opt_text(*o) is None,
        },
{
    match o {
        Some(s) => Some(s.as_str()),
        None => None,
    }
}

/// The pinned and observed values of the hash slot named `field`.
pub fn hash_pair<'a>(
    provenance: &'a ReplayProvenance,
    observed: &'a ObservedHashes,
    field: &str,
) -> (r: (Option<&'a str>, Option<&'a str>))
    ensures
        match r.0 {
            Some(s) => hash_slots(*provenance, *observed, field@).0 == Some(s@),
            None => hash_slots(*provenance, *observed, field@).0 is None,
        },
        match r.1 {
            Some(s) => hash_slots(*provenance, *observed, field@).1 == Some(s@),
            None => hash_slots(*provenance, *observed, field@).1 is None,
        },
{
    if str_eq(field, "project_hash") {
        (opt_as_str(&provenance.project_hash), opt_as_str(&observed.project_hash))
    } else if str_eq(field, "input_hash") {
        (opt_as_str(&provenance.input_hash), opt_as_str(&observed.input_hash))
    } else if str_eq(field, "plan_hash") {
        (opt_as_str(&provenance.plan_hash), opt_as_str(&observed.plan_hash))
    } else if str_eq(field, "result_hash") {
        (opt_as_str(&provenance.result_hash), opt_as_str(&observed.result_hash))
    } else {
        (None, None)
    }
}

/// Verify a block's replay pins against the hashes observed now.
///
/// Returns [`ReplayStatus::Replayable`] when the block is declared
/// replayable and every required field is present on both sides and equal;
/// unknown field names count as missing.
pub fn verify_replay(provenance: &ReplayProvenance, observed: &ObservedHashes) -> (r: ReplayStatus)
    ensures
        r@ == replay_verdict(*provenance, *observed),
{
    if !provenance.replay.replayable {
        return ReplayStatus::NotReplayable { reasons: clone_strings(&provenance.replay.reasons) };
    }
    let ghost p = *provenance;
    let ghost o = *observed;
    let required = &provenance.replay.required_hashes;
    let ghost req = texts(required@);
    let mut missing: Vec<String> = Vec::new();
    let mut mismatches: Vec<HashMismatch> = Vec::new();
    let mut i: usize = 0;
    while i < required.len()
        invariant
            p == *provenance,
            o == *observed,
            required == &provenance.replay.required_hashes,
            req == texts(required@),
            i <= required.len(),
            texts(missing@) == missing_fields(p, o, req.subrange(0, i as int)),
            mismatches@.map_values(|m: HashMismatch| m@) == mismatched_fields(
                p,
                o,
                req.subrange(0, i as int),
            ),
        decreases required.len() - i,
    {
        let field = &required[i];
        let pair = hash_pair(provenance, observed, field.as_str());
        let ghost before = req.subrange(0, i as int);
        let ghost after = req.subrange(0, i + 1);
        assert(after.drop_last() =~= before);
        assert(after.last() == field@);
        match pair {
            (Some(expected), Some(observed_value)) => {
                if !str_eq(expected, observed_value) {
                    mismatches.push(
                        HashMismatch {
                            field: field.clone(),
                            expected: expected.to_owned(),
                            observed: observed_value.to_owned(),
                        },
                    );
                }
            },
            _ => {
                missing.push(field.clone());
            },
        }
        assert(texts(missing@) =~= missing_fields(p, o, after));
        assert(mismatches@.map_values(|m: HashMismatch| m@) =~= mismatched_fields(p, o, after));
        i = i + 1;
    }
    assert(req.subrange(0, required.len() as int) =~= req);
    if missing.len() == 0 && mismatches.len() == 0 {
        ReplayStatus::Replayable
    } else {
        ReplayStatus::Failed { missing, mismatches }
    }
}

} // verus!
