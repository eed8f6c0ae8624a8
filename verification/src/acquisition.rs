//! Merging of the channel demands of several views into one device request,
//! and the decimation that lets a fast source feed a slower consumer.

use vstd::prelude::*;

use crate::mixed_scope::{MixedScopeChannel, MixedScopeError, ScopeRate, ScopeSelection};
use crate::plot_capabilities::{first_channel, DevicePlotCapabilities};
use crate::schema::{first_parameter_named, HostSchema};
use crate::stream::{config_error, samples_covering, StreamConfig, StreamError, TimeSpan};

verus! {

/// All selections of all groups, in order.
pub open spec fn flatten(groups: Seq<Seq<ScopeSelection>>) -> Seq<ScopeSelection>
    decreases groups.len(),
{
    if groups.len() == 0 {
        Seq::empty()
    } else {
        flatten(groups.drop_last()) + groups.last()
    }
}

/// The groups as sequences of selections.
pub open spec fn group_views(groups: Seq<&[ScopeSelection]>) -> Seq<Seq<ScopeSelection>> {
    groups.map_values(|g: &[ScopeSelection]| g@)
}

/// Some selection asks for channel `id`.
pub open spec fn demands(all: Seq<ScopeSelection>, id: u16) -> bool {
    exists|m: int| 0 <= m < all.len() && (#[trigger] all[m]).id == id
}

/// Some selection asks for channel `id` at the FAST rate.
pub open spec fn demands_fast(all: Seq<ScopeSelection>, id: u16) -> bool {
    exists|m: int| 0 <= m < all.len() && (#[trigger] all[m]).id == id && all[m].rate == ScopeRate::Fast
}

/// Entries are sorted by strictly increasing ID.
pub open spec fn sorted_by_id(res: Seq<ScopeSelection>) -> bool {
    forall|i: int, j: int| 0 <= i < j < res.len() ==> (#[trigger] res[i]).id < (#[trigger] res[j]).id
}

/// The merged demand for the selections `all`: sorted by ID, one entry per
/// demanded channel, FAST exactly when some selection of that channel is FAST.
pub open spec fn is_merged(res: Seq<ScopeSelection>, all: Seq<ScopeSelection>) -> bool {
    &&& sorted_by_id(res)
    &&& forall|id: u16| #[trigger] demands(res, id) == demands(all, id)
    &&& forall|id: u16| #[trigger] demands_fast(res, id) == demands_fast(all, id)
}

proof fn lemma_demands_push(prefix: Seq<ScopeSelection>, selection: ScopeSelection)
    ensures
        forall|id: u16| #[trigger] demands(prefix.push(selection), id) == (demands(prefix, id) || id == selection.id),
        forall|id: u16| #[trigger] demands_fast(prefix.push(selection), id) == (demands_fast(prefix, id) || (id
            == selection.id && selection.rate == ScopeRate::Fast)),
{
    let next = prefix.push(selection);
    assert forall|id: u16| #[trigger] demands(next, id) == (demands(prefix, id) || id == selection.id) by {
        if demands(next, id) {
            let m = choose|m: int| 0 <= m < next.len() && (#[trigger] next[m]).id == id;
            if m < prefix.len() {
                assert(prefix[m] == next[m]);
            }
        }
        if demands(prefix, id) {
            let m = choose|m: int| 0 <= m < prefix.len() && (#[trigger] prefix[m]).id == id;
            assert(next[m] == prefix[m]);
        }
        if id == selection.id {
            assert(next[prefix.len() as int] == selection);
        }
    }
    assert forall|id: u16| #[trigger] demands_fast(next, id) == (demands_fast(prefix, id) || (id == selection.id
        && selection.rate == ScopeRate::Fast)) by {
        if demands_fast(next, id) {
            let m = choose|m: int| 0 <= m < next.len() && (#[trigger] next[m]).id == id && next[m].rate
                == ScopeRate::Fast;
            if m < prefix.len() {
                assert(prefix[m] == next[m]);
            }
        }
        if demands_fast(prefix, id) {
            let m = choose|m: int| 0 <= m < prefix.len() && (#[trigger] prefix[m]).id == id && prefix[m].rate
                == ScopeRate::Fast;
            assert(next[m] == prefix[m]);
        }
        if id == selection.id && selection.rate == ScopeRate::Fast {
            assert(next[prefix.len() as int] == selection);
        }
    }
}

/// Adds one selection to a merged demand.
fn merge_one(merged: &mut Vec<ScopeSelection>, selection: ScopeSelection)
    requires
        sorted_by_id(old(merged)@),
    ensures
        sorted_by_id(final(merged)@),
        forall|id: u16| #[trigger] demands(final(merged)@, id) == (demands(old(merged)@, id) || id == selection.id),
        forall|id: u16| #[trigger] demands_fast(final(merged)@, id) == (demands_fast(old(merged)@, id) || (id
            == selection.id && selection.rate == ScopeRate::Fast)),
{
    let mut p: usize = 0;
    while p < merged.len() && merged[p].id < selection.id
        invariant
            p <= merged@.len(),
            forall|i: int| 0 <= i < p ==> (#[trigger] merged@[i]).id < selection.id,
        decreases merged@.len() - p,
    {
        p = p + 1;
    }
    let ghost old_merged = merged@;
    if p < merged.len() && merged[p].id == selection.id {
        let rate = if selection.rate == ScopeRate::Fast {
            ScopeRate::Fast
        } else {
            merged[p].rate
        };
        let updated = ScopeSelection { id: selection.id, rate };
        merged.set(p, updated);
        assert forall|id: u16| #[trigger] demands(merged@, id) == (demands(old_merged, id) || id == selection.id) by {
            if demands(merged@, id) {
                let m = choose|m: int| 0 <= m < merged@.len() && (#[trigger] merged@[m]).id == id;
                if m != p {
                    assert(old_merged[m] == merged@[m]);
                }
            }
            if demands(old_merged, id) {
                let m = choose|m: int| 0 <= m < old_merged.len() && (#[trigger] old_merged[m]).id == id;
                assert(merged@[m].id == old_merged[m].id);
            }
            if id == selection.id {
                assert(merged@[p as int].id == id);
            }
        }
        assert forall|id: u16| #[trigger] demands_fast(merged@, id) == (demands_fast(old_merged, id) || (id
            == selection.id && selection.rate == ScopeRate::Fast)) by {
            if demands_fast(merged@, id) {
                let m = choose|m: int| 0 <= m < merged@.len() && (#[trigger] merged@[m]).id == id && merged@[m].rate
                    == ScopeRate::Fast;
                if m != p {
                    assert(old_merged[m] == merged@[m]);
                }
            }
            if demands_fast(old_merged, id) {
                let m = choose|m: int| 0 <= m < old_merged.len() && (#[trigger] old_merged[m]).id == id
                    && old_merged[m].rate == ScopeRate::Fast;
                if m != p {
                    assert(merged@[m] == old_merged[m]);
                } else {
                    assert(merged@[m].rate == ScopeRate::Fast);
                }
            }
            if id == selection.id && selection.rate == ScopeRate::Fast {
                assert(merged@[p as int] == updated);
            }
        }
    } else {
        merged.insert(p, selection);
        assert forall|i: int, j: int| 0 <= i < j < merged@.len() implies (#[trigger] merged@[i]).id
            < (#[trigger] merged@[j]).id by {
            if j < p {
            } else if j == p {
            } else if i <= p {
                assert(merged@[j] == old_merged[j - 1]);
                if j - 1 > p {
                    assert(old_merged[p as int].id < old_merged[j - 1].id);
                }
            } else {
                assert(merged@[i] == old_merged[i - 1]);
                assert(merged@[j] == old_merged[j - 1]);
            }
        }
        assert forall|id: u16| #[trigger] demands(merged@, id) == (demands(old_merged, id) || id == selection.id) by {
            if demands(merged@, id) {
                let m = choose|m: int| 0 <= m < merged@.len() && (#[trigger] merged@[m]).id == id;
                if m < p {
                    assert(old_merged[m] == merged@[m]);
                } else if m > p {
                    assert(old_merged[m - 1] == merged@[m]);
                }
            }
            if demands(old_merged, id) {
                let m = choose|m: int| 0 <= m < old_merged.len() && (#[trigger] old_merged[m]).id == id;
                if m < p {
                    assert(merged@[m] == old_merged[m]);
                } else {
                    assert(merged@[m + 1] == old_merged[m]);
                }
            }
            if id == selection.id {
                assert(merged@[p as int] == selection);
            }
        }
        assert forall|id: u16| #[trigger] demands_fast(merged@, id) == (demands_fast(old_merged, id) || (id
            == selection.id && selection.rate == ScopeRate::Fast)) by {
            if demands_fast(merged@, id) {
                let m = choose|m: int| 0 <= m < merged@.len() && (#[trigger] merged@[m]).id == id && merged@[m].rate
                    == ScopeRate::Fast;
                if m < p {
                    assert(old_merged[m] == merged@[m]);
                } else if m > p {
                    assert(old_merged[m - 1] == merged@[m]);
                }
            }
            if demands_fast(old_merged, id) {
                let m = choose|m: int| 0 <= m < old_merged.len() && (#[trigger] old_merged[m]).id == id
                    && old_merged[m].rate == ScopeRate::Fast;
                if m < p {
                    assert(merged@[m] == old_merged[m]);
                } else {
                    assert(merged@[m + 1] == old_merged[m]);
                }
            }
            if id == selection.id && selection.rate == ScopeRate::Fast {
                assert(merged@[p as int] == selection);
            }
        }
    }
}

fn flatten_groups(groups: &[&[ScopeSelection]]) -> (res: Vec<ScopeSelection>)
    ensures
        res@ == flatten(group_views(groups@)),
{
    let mut out: Vec<ScopeSelection> = Vec::new();
    let mut g: usize = 0;
    while g < groups.len()
        invariant
            g <= groups@.len(),
            out@ == flatten(group_views(groups@).subrange(0, g as int)),
        decreases groups@.len() - g,
    {
        let group: &[ScopeSelection] = groups[g];
        let ghost before = out@;
        let mut i: usize = 0;
        while i < group.len()
            invariant
                i <= group@.len(),
                out@ == before + group@.subrange(0, i as int),
            decreases group@.len() - i,
        {
            out.push(group[i]);
            i = i + 1;
            assert(out@ =~= before + group@.subrange(0, i as int));
        }
        proof {
            let gv = group_views(groups@);
            let next = gv.subrange(0, g + 1);
            assert(next.drop_last() =~= gv.subrange(0, g as int));
            assert(group@.subrange(0, group@.len() as int) =~= group@);
        }
        g = g + 1;
    }
    assert(group_views(groups@).subrange(0, groups@.len() as int) =~= group_views(groups@));
    out
}

/// Merges the demands of several consumers into one device request: sorted
/// and de-duplicated by parameter ID, with FAST superseding NORMAL so the same
/// ID is never requested twice.
pub fn merge_demands(groups: &[&[ScopeSelection]]) -> (res: Vec<ScopeSelection>)
    ensures
        is_merged(res@, flatten(group_views(groups@))),
{
    let all = flatten_groups(groups);
    let mut merged: Vec<ScopeSelection> = Vec::new();
    let mut k: usize = 0;
    while k < all.len()
        invariant
            k <= all@.len(),
            is_merged(merged@, all@.subrange(0, k as int)),
        decreases all@.len() - k,
    {
        let selection = all[k];
        proof {
            let prefix = all@.subrange(0, k as int);
            assert(all@.subrange(0, k + 1) == prefix.push(selection));
            lemma_demands_push(prefix, selection);
        }
        merge_one(&mut merged, selection);
        k = k + 1;
    }
    assert(all@.subrange(0, all@.len() as int) =~= all@);
    merged
}

/// Decimation state of one consumer at `target_hz` fed by a source that may be faster.
#[derive(Debug, Clone, Copy, PartialEq, Eq)]
pub struct Decimator {
    target_hz: u32,
    phase: u32,
    source_hz: u32,
}

/// The state of a decimator: consumer rate, accumulated phase, last source rate.
pub struct DecimatorView {
    pub target_hz: u32,
    pub phase: u32,
    pub source_hz: u32,
}

impl DecimatorView {
    pub open spec fn wf(self) -> bool {
        &&& self.target_hz > 0
        &&& self.source_hz != 0 ==> self.phase < self.source_hz && self.phase % self.target_hz == 0
            && self.source_hz % self.target_hz == 0
    }
}

impl View for Decimator {
    type V = DecimatorView;

    closed spec fn view(&self) -> DecimatorView {
        DecimatorView { target_hz: self.target_hz, phase: self.phase, source_hz: self.source_hz }
    }
}

#[derive(Debug, Clone, Copy, PartialEq, Eq, Structural)]
pub enum DecimationError {
    /// The source rate is not an integer multiple of the consumer rate.
    IncompatibleRates,
}

proof fn lemma_phase_room(phase: u32, target: u32, source: u32)
    requires
        target > 0,
        phase < source,
        phase % target == 0,
        source % target == 0,
    ensures
        phase + target <= source,
{
    assert(phase + target <= source) by (nonlinear_arith)
        requires
            target > 0,
            phase < source,
            phase % target == 0,
            source % target == 0,
    {
        let a = phase / target;
        let b = source / target;
        assert(phase == a * target);
        assert(source == b * target);
        assert(a < b);
        assert((a + 1) * target <= b * target);
    }
}

impl Decimator {
    pub fn new(target_hz: u32) -> (res: Decimator)
        requires
            target_hz > 0,
        ensures
            res@.target_hz == target_hz,
            res@.phase == 0,
            res@.source_hz == 0,
            res@.wf(),
    {
        Decimator { target_hz, phase: 0, source_hz: 0 }
    }

    /// Whether the next sample of a source at `source_hz` is kept.
    ///
    /// Of every `source_hz / target_hz` consecutive samples exactly the last
    /// is kept; a change of the source rate restarts the count.
    pub fn accept(&mut self, source_hz: u32) -> (res: Result<bool, DecimationError>)
        requires
            old(self)@.wf(),
        ensures
            final(self)@.wf(),
            final(self)@.target_hz == old(self)@.target_hz,
            ({
                let target = old(self)@.target_hz;
                if source_hz < target || source_hz % target != 0 {
                    res == Err::<bool, DecimationError>(DecimationError::IncompatibleRates)
                        && final(self)@ == old(self)@
                } else {
                    let start = if old(self)@.source_hz == source_hz { old(self)@.phase } else { 0 };
                    let phase = start + target;
                    &&& final(self)@.source_hz == source_hz
                    &&& res == Ok::<bool, DecimationError>(phase >= source_hz)
                    &&& final(self)@.phase == (if phase >= source_hz { phase - source_hz } else { phase })
                }
            }),
    {
        let target = self.target_hz;
        if source_hz < target || source_hz % target != 0 {
            return Err(DecimationError::IncompatibleRates);
        }
        if self.source_hz != source_hz {
            self.source_hz = source_hz;
            self.phase = 0;
        }
        proof {
            lemma_phase_room(self.phase, target, source_hz);
        }
        let phase = self.phase + target;
        if phase >= source_hz {
            proof {
                vstd::arithmetic::div_mod::lemma_sub_mod_noop(phase as int, source_hz as int, target as int);
                assert((phase as int) % (target as int) == 0) by (nonlinear_arith)
                    requires
                        phase == self.phase + target,
                        self.phase % target == 0,
                        target > 0,
                ;
            }
            self.phase = phase - source_hz;
            Ok(true)
        } else {
            assert(phase % target == 0) by (nonlinear_arith)
                requires
                    phase == self.phase + target,
                    self.phase % target == 0,
                    target > 0,
            ;
            self.phase = phase;
            Ok(false)
        }
    }
}

/// The largest record, in bytes, that a view may keep.
pub const RECORD_BUDGET: usize = 134_217_728;

/// The baseline channel of `key`: the schema names it and the device can plot
/// it at the NORMAL rate.
pub open spec fn base_candidate(schema: HostSchema, caps: DevicePlotCapabilities, key: Seq<char>) -> Seq<ScopeSelection> {
    match first_parameter_named(schema.parameters@, key) {
        Some(m) => match first_channel(caps.channels@, m.id) {
            Some(c) => if (c.modes / 2) % 2 == 1 {
                seq![ScopeSelection { id: m.id, rate: ScopeRate::Normal }]
            } else {
                Seq::empty()
            },
            None => Seq::empty(),
        },
        None => Seq::empty(),
    }
}

/// The baseline candidates in the order of the baseline symbols: run
/// current, speed, position and bus voltage.
pub open spec fn base_candidates(schema: HostSchema, caps: DevicePlotCapabilities) -> Seq<ScopeSelection> {
    base_candidate(schema, caps, "PARAM_RUN_IQ"@) + base_candidate(schema, caps, "PARAM_RUN_WM"@) + base_candidate(
        schema,
        caps,
        "PARAM_RUN_POSITION"@,
    ) + base_candidate(schema, caps, "PARAM_ADC_VBUS"@)
}

fn push_base(schema: &HostSchema, caps: &DevicePlotCapabilities, key: &str, out: &mut Vec<ScopeSelection>)
    ensures
        final(out)@ == old(out)@ + base_candidate(*schema, *caps, key@),
{
    if let Some(m) = schema.parameter_by_key(key) {
        if let Some(c) = caps.channel(m.id) {
            if c.supports_normal() {
                out.push(ScopeSelection { id: m.id, rate: ScopeRate::Normal });
                return;
            }
        }
    }
    assert(old(out)@ + base_candidate(*schema, *caps, key@) == old(out)@);
}

proof fn lemma_demands_concat(a: Seq<ScopeSelection>, b: Seq<ScopeSelection>, id: u16)
    ensures
        demands(a + b, id) == (demands(a, id) || demands(b, id)),
        demands_fast(a + b, id) == (demands_fast(a, id) || demands_fast(b, id)),
{
    let ab = a + b;
    if demands(ab, id) {
        let m = choose|m: int| 0 <= m < ab.len() && (#[trigger] ab[m]).id == id;
        if m < a.len() {
            assert(a[m] == ab[m]);
        } else {
            assert(b[m - a.len()] == ab[m]);
        }
    }
    if demands(a, id) {
        let m = choose|m: int| 0 <= m < a.len() && (#[trigger] a[m]).id == id;
        assert(ab[m] == a[m]);
    }
    if demands(b, id) {
        let m = choose|m: int| 0 <= m < b.len() && (#[trigger] b[m]).id == id;
        assert(ab[m + a.len()] == b[m]);
    }
    if demands_fast(ab, id) {
        let m = choose|m: int| 0 <= m < ab.len() && (#[trigger] ab[m]).id == id && ab[m].rate == ScopeRate::Fast;
        if m < a.len() {
            assert(a[m] == ab[m]);
        } else {
            assert(b[m - a.len()] == ab[m]);
        }
    }
    if demands_fast(a, id) {
        let m = choose|m: int| 0 <= m < a.len() && (#[trigger] a[m]).id == id && a[m].rate == ScopeRate::Fast;
        assert(ab[m] == a[m]);
    }
    if demands_fast(b, id) {
        let m = choose|m: int| 0 <= m < b.len() && (#[trigger] b[m]).id == id && b[m].rate == ScopeRate::Fast;
        assert(ab[m + a.len()] == b[m]);
    }
}

/// The schema names a parameter `key`, and its ID is `id`.
pub open spec fn names_id(schema: HostSchema, key: Seq<char>, id: u16) -> bool {
    first_parameter_named(schema.parameters@, key) matches Some(m) && m.id == id
}

/// The device reports channel `id` and can send it at the NORMAL rate.
pub open spec fn sends_normal(caps: DevicePlotCapabilities, id: u16) -> bool {
    first_channel(caps.channels@, id) matches Some(c) && (c.modes / 2) % 2 == 1
}

proof fn lemma_candidate_demands(schema: HostSchema, caps: DevicePlotCapabilities, key: Seq<char>, id: u16)
    ensures
        demands(base_candidate(schema, caps, key), id) == (names_id(schema, key, id) && sends_normal(caps, id)),
        !demands_fast(base_candidate(schema, caps, key), id),
{
    let cand = base_candidate(schema, caps, key);
    if cand.len() > 0 {
        assert(cand[0].id == first_parameter_named(schema.parameters@, key)->0.id);
    }
}

/// The baseline every view shares: for each of the symbols PARAM_RUN_IQ,
/// PARAM_RUN_WM, PARAM_RUN_POSITION and PARAM_ADC_VBUS that the schema names
/// and whose channel the device can send at the NORMAL rate, that channel is
/// demanded; no other channel is demanded, and none at the FAST rate.
pub proof fn lemma_baseline_demands(schema: HostSchema, caps: DevicePlotCapabilities, res: Seq<ScopeSelection>, id: u16)
    requires
        is_merged(res, base_candidates(schema, caps)),
    ensures
        demands(res, id) == ((names_id(schema, "PARAM_RUN_IQ"@, id) || names_id(schema, "PARAM_RUN_WM"@, id)
            || names_id(schema, "PARAM_RUN_POSITION"@, id) || names_id(schema, "PARAM_ADC_VBUS"@, id))
            && sends_normal(caps, id)),
        !demands_fast(res, id),
{
    let a = base_candidate(schema, caps, "PARAM_RUN_IQ"@);
    let b = base_candidate(schema, caps, "PARAM_RUN_WM"@);
    let c = base_candidate(schema, caps, "PARAM_RUN_POSITION"@);
    let d = base_candidate(schema, caps, "PARAM_ADC_VBUS"@);
    lemma_candidate_demands(schema, caps, "PARAM_RUN_IQ"@, id);
    lemma_candidate_demands(schema, caps, "PARAM_RUN_WM"@, id);
    lemma_candidate_demands(schema, caps, "PARAM_RUN_POSITION"@, id);
    lemma_candidate_demands(schema, caps, "PARAM_ADC_VBUS"@, id);
    lemma_demands_concat(a, b, id);
    lemma_demands_concat(a + b, c, id);
    lemma_demands_concat(a + b + c, d, id);
    assert(demands(res, id) == demands(base_candidates(schema, caps), id));
    assert(demands_fast(res, id) == demands_fast(base_candidates(schema, caps), id));
}

/// The telemetry every view shares: the baseline channels the device can
/// send at the NORMAL rate, merged into one request.
pub fn base_selections(schema: &HostSchema, caps: &DevicePlotCapabilities) -> (res: Vec<ScopeSelection>)
    ensures
        is_merged(res@, base_candidates(*schema, *caps)),
        forall|id: u16|
            #[trigger] demands(res@, id) == ((names_id(*schema, "PARAM_RUN_IQ"@, id) || names_id(
                *schema,
                "PARAM_RUN_WM"@,
                id,
            ) || names_id(*schema, "PARAM_RUN_POSITION"@, id) || names_id(*schema, "PARAM_ADC_VBUS"@, id))
                && sends_normal(*caps, id)),
        forall|id: u16| !#[trigger] demands_fast(res@, id),
{
    let mut base: Vec<ScopeSelection> = Vec::new();
    push_base(schema, caps, "PARAM_RUN_IQ", &mut base);
    push_base(schema, caps, "PARAM_RUN_WM", &mut base);
    push_base(schema, caps, "PARAM_RUN_POSITION", &mut base);
    push_base(schema, caps, "PARAM_ADC_VBUS", &mut base);
    let groups: [&[ScopeSelection]; 1] = [base.as_slice()];
    proof {
        let g = group_views(groups@);
        assert(g == seq![base@]);
        assert(g.drop_last() == Seq::<Seq<ScopeSelection>>::empty());
        assert(g.last() == base@);
        assert(flatten(g.drop_last()) == Seq::<ScopeSelection>::empty());
        assert(Seq::<ScopeSelection>::empty() + base@ =~= base@);
        assert(flatten(g) == base@);
    }
    let res = merge_demands(&groups);
    proof {
        assert forall|id: u16| #[trigger] demands(res@, id) == ((names_id(*schema, "PARAM_RUN_IQ"@, id) || names_id(
            *schema,
            "PARAM_RUN_WM"@,
            id,
        ) || names_id(*schema, "PARAM_RUN_POSITION"@, id) || names_id(*schema, "PARAM_ADC_VBUS"@, id))
            && sends_normal(*caps, id)) by {
            lemma_baseline_demands(*schema, *caps, res@, id);
        }
        assert forall|id: u16| !#[trigger] demands_fast(res@, id) by {
            lemma_baseline_demands(*schema, *caps, res@, id);
        }
    }
    res
}

/// What a view demands from the device: the baseline, its own channels
/// while it records, and those of the other view while that one records.
pub fn view_demand(base: &[ScopeSelection], requested: &[ScopeSelection], recording: bool, other: Option<&[ScopeSelection]>) -> (res:
    Vec<ScopeSelection>)
    ensures
        is_merged(
            res@,
            base@ + (if recording {
                requested@
            } else {
                Seq::empty()
            }) + match other {
                Some(o) => o@,
                None => Seq::empty(),
            },
        ),
{
    let none: Vec<ScopeSelection> = Vec::new();
    let own: &[ScopeSelection] = if recording {
        requested
    } else {
        none.as_slice()
    };
    let theirs: &[ScopeSelection] = match other {
        Some(o) => o,
        None => none.as_slice(),
    };
    let groups: [&[ScopeSelection]; 3] = [base, own, theirs];
    proof {
        let g = group_views(groups@);
        assert(g == seq![base@, own@, theirs@]);
        let g1 = g.drop_last().drop_last();
        let g2 = g.drop_last();
        assert(g1 == seq![base@]);
        assert(g1.drop_last() == Seq::<Seq<ScopeSelection>>::empty());
        assert(g1.last() == base@);
        assert(flatten(g1.drop_last()) == Seq::<ScopeSelection>::empty());
        assert(Seq::<ScopeSelection>::empty() + base@ =~= base@);
        assert(flatten(g1) == base@);
        assert(g2.drop_last() == g1);
        assert(g2.last() == own@);
        assert(flatten(g2) == base@ + own@);
        assert(flatten(g) == base@ + own@ + theirs@);
    }
    merge_demands(&groups)
}

/// The bytes a single-channel ring of one record channel takes, or the
/// stream error that refuses it.
pub open spec fn channel_bytes(c: MixedScopeChannel, history: TimeSpan) -> Result<int, StreamError> {
    let config = StreamConfig { sample_rate_hz: c.sample_rate_hz, channel_count: 1, history };
    match config_error(config) {
        Some(message) => Err(StreamError::InvalidConfig(message)),
        None => {
            let bytes = samples_covering(history.nanos as int, c.sample_rate_hz as int) * 4;
            if bytes > usize::MAX {
                Err(StreamError::InvalidConfig("stream buffer size overflows usize"))
            } else {
                Ok(bytes)
            }
        },
    }
}

/// The bytes the rings of `chs` take together, summed in order; the first
/// refusal or overflow ends the sum.
pub open spec fn record_bytes(chs: Seq<MixedScopeChannel>, history: TimeSpan) -> Result<int, MixedScopeError>
    decreases chs.len(),
{
    if chs.len() == 0 {
        Ok(0)
    } else {
        match record_bytes(chs.drop_last(), history) {
            Err(e) => Err(e),
            Ok(sum) => match channel_bytes(chs.last(), history) {
                Err(e) => Err(MixedScopeError::Stream(e)),
                Ok(b) => if sum + b > usize::MAX {
                    Err(MixedScopeError::Stream(StreamError::InvalidConfig("record buffer size overflow")))
                } else {
                    Ok(sum + b)
                },
            },
        }
    }
}

/// A record of `channels` over `history` must fit its RAM budget.
pub fn check_budget(channels: &[MixedScopeChannel], history: TimeSpan) -> (res: Result<(), MixedScopeError>)
    ensures
        match record_bytes(channels@, history) {
            Err(e) => res == Err::<(), MixedScopeError>(e),
            Ok(total) => if total > RECORD_BUDGET {
                res matches Err(MixedScopeError::Runtime(m)) && m@ == "record exceeds the 128 MiB limit"@
            } else {
                res is Ok
            },
        },
{
    let mut sum: usize = 0;
    let mut i: usize = 0;
    while i < channels.len()
        invariant
            i <= channels@.len(),
            record_bytes(channels@.take(i as int), history) == Ok::<int, MixedScopeError>(sum as int),
        decreases channels@.len() - i,
    {
        let c = &channels[i];
        assert(channels@.take(i as int + 1).drop_last() == channels@.take(i as int));
        assert(channels@.take(i as int + 1).last() == *c);
        let config = StreamConfig { sample_rate_hz: c.sample_rate_hz, channel_count: 1, history };
        let bytes = match config.estimated_ram_bytes() {
            Ok(b) => b,
            Err(e) => {
                proof { lemma_record_error_stays(channels@, history, i as int + 1); }
                return Err(MixedScopeError::Stream(e));
            },
        };
        sum = match sum.checked_add(bytes) {
            Some(total) => total,
            None => {
                proof { lemma_record_error_stays(channels@, history, i as int + 1); }
                return Err(MixedScopeError::Stream(StreamError::InvalidConfig("record buffer size overflow")));
            },
        };
        i = i + 1;
    }
    assert(channels@.take(channels@.len() as int) == channels@);
    if sum > RECORD_BUDGET {
        return Err(MixedScopeError::Runtime("record exceeds the 128 MiB limit".to_owned()));
    }
    Ok(())
}

proof fn lemma_record_error_stays(chs: Seq<MixedScopeChannel>, history: TimeSpan, n: int)
    requires
        0 < n <= chs.len(),
        record_bytes(chs.take(n), history) is Err,
    ensures
        record_bytes(chs, history) == record_bytes(chs.take(n), history),
    decreases chs.len() - n,
{
    if n < chs.len() {
        assert(chs.take(n + 1).drop_last() == chs.take(n));
        lemma_record_error_stays(chs, history, n + 1);
    } else {
        assert(chs.take(n) == chs);
    }
}

/// The device's FAST rate must be a whole multiple of its NORMAL rate, so a
/// FAST source can feed a NORMAL consumer by decimation.
pub fn check_rates(caps: &DevicePlotCapabilities) -> (res: Result<(), MixedScopeError>)
    ensures
        caps.fast_rate_hz == 0 || caps.normal_rate_hz == 0 || caps.fast_rate_hz % caps.normal_rate_hz != 0 ==> (res matches Err(
            MixedScopeError::Runtime(m),
        ) && m@ == "FAST rate must be an integer multiple of NORMAL"@),
        !(caps.fast_rate_hz == 0 || caps.normal_rate_hz == 0 || caps.fast_rate_hz % caps.normal_rate_hz != 0) ==> res is Ok,
{
    if caps.fast_rate_hz == 0 || caps.normal_rate_hz == 0 || caps.fast_rate_hz % caps.normal_rate_hz != 0 {
        return Err(MixedScopeError::Runtime("FAST rate must be an integer multiple of NORMAL".to_owned()));
    }
    Ok(())
}

/// A finite capture must be shorter than or as long as the record's history,
/// and not empty.
pub fn check_capture_duration(duration: TimeSpan, history: TimeSpan) -> (res: Result<(), MixedScopeError>)
    ensures
        duration.nanos == 0 || duration.nanos > history.nanos ==> (res matches Err(MixedScopeError::Runtime(m)) && m@
            == "capture duration exceeds recording capacity"@),
        !(duration.nanos == 0 || duration.nanos > history.nanos) ==> res is Ok,
{
    if duration.nanos == 0 || duration.nanos > history.nanos {
        return Err(MixedScopeError::Runtime("capture duration exceeds recording capacity".to_owned()));
    }
    Ok(())
}

/// Whether the device currently delivers channel `id` at `rate`; samples of
/// a layout that is being replaced are dropped rather than stored twice.
pub fn delivered(actual: &[ScopeSelection], id: u16, rate: ScopeRate) -> (res: bool)
    ensures
        res == exists|k: int| 0 <= k < actual@.len() && (#[trigger] actual@[k]).id == id && actual@[k].rate == rate,
{
    let mut i: usize = 0;
    while i < actual.len()
        invariant
            i <= actual@.len(),
            forall|k: int| 0 <= k < i ==> !((#[trigger] actual@[k]).id == id && actual@[k].rate == rate),
        decreases actual@.len() - i,
    {
        if actual[i].id == id && actual[i].rate == rate {
            return true;
        }
        i = i + 1;
    }
    false
}

} // verus!
