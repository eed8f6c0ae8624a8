//! RAM-only stream history and finite capture: a fixed-capacity ring of
//! multi-channel samples. `Live` overwrites the oldest sample when full;
//! `capture` clears the history, records a finite interval, then pauses
//! without overwriting the start of the capture.

use vstd::prelude::*;

verus! {

#[derive(Debug, Clone, Copy, PartialEq, Eq, Structural)]
pub enum StreamState {
    Stopped,
    Live,
    Capturing,
    Paused,
}

/// A span of time in whole nanoseconds.
#[derive(Debug, Clone, Copy, PartialEq, Eq, Structural)]
pub struct TimeSpan {
    pub nanos: u128,
}

pub const NANOS_PER_SECOND: u128 = 1_000_000_000;

impl TimeSpan {
    pub fn from_secs(secs: u64) -> (res: Self)
        ensures
            res.nanos == secs * NANOS_PER_SECOND,
    {
        assert(secs * NANOS_PER_SECOND <= u64::MAX * 1_000_000_000) by (nonlinear_arith);
        TimeSpan { nanos: secs as u128 * NANOS_PER_SECOND }
    }

    pub fn from_millis(millis: u64) -> (res: Self)
        ensures
            res.nanos == millis * 1_000_000,
    {
        assert(millis * 1_000_000 <= u64::MAX * 1_000_000) by (nonlinear_arith);
        TimeSpan { nanos: millis as u128 * 1_000_000 }
    }

    pub fn is_zero(self) -> (res: bool)
        ensures
            res == (self.nanos == 0),
    {
        self.nanos == 0
    }
}

/// The number of samples at `rate_hz` that cover `nanos`, rounded up.
pub open spec fn samples_covering(nanos: int, rate_hz: int) -> int {
    (nanos * rate_hz + (NANOS_PER_SECOND - 1)) / NANOS_PER_SECOND as int
}

#[derive(Debug, Clone, PartialEq, Eq)]
pub enum StreamError {
    InvalidConfig(&'static str),
    ChannelCount { expected: usize, actual: usize },
    InvalidCaptureDuration,
    CaptureTooLong { requested: usize, capacity: usize },
}

/// Sample rate, channels per sample, and how much history the ring holds.
#[derive(Debug, Clone, Copy, PartialEq, Eq, Structural)]
pub struct StreamConfig {
    pub sample_rate_hz: u32,
    pub channel_count: usize,
    pub history: TimeSpan,
}

/// Why a configuration has no ring capacity, if it has one.
pub open spec fn config_error(c: StreamConfig) -> Option<&'static str> {
    if c.sample_rate_hz == 0 {
        Some("sample_rate_hz must be greater than zero")
    } else if c.channel_count == 0 {
        Some("channel_count must be greater than zero")
    } else if c.history.nanos == 0 {
        Some("history must be greater than zero")
    } else if samples_covering(c.history.nanos as int, c.sample_rate_hz as int) > usize::MAX {
        Some("history is too large")
    } else {
        None
    }
}

/// `samples_covering` for exact integers, or `None` beyond `usize`.
fn covering(nanos: u128, rate_hz: u32) -> (res: Option<usize>)
    ensures
        match res {
            Some(n) => n == samples_covering(nanos as int, rate_hz as int),
            None => samples_covering(nanos as int, rate_hz as int) > usize::MAX,
        },
{
    let product = match nanos.checked_mul(rate_hz as u128) {
        Some(p) => p,
        None => {
            assert(samples_covering(nanos as int, rate_hz as int) > usize::MAX) by (nonlinear_arith)
                requires
                    nanos * rate_hz > u128::MAX,
            ;
            return None;
        },
    };
    let whole = product / NANOS_PER_SECOND;
    let rest = product % NANOS_PER_SECOND;
    let samples = if rest == 0 { whole } else { whole + 1 };
    assert(samples == samples_covering(nanos as int, rate_hz as int)) by (nonlinear_arith)
        requires
            product == nanos * rate_hz,
            whole == product / 1_000_000_000,
            rest == product % 1_000_000_000,
            samples == if rest == 0 { whole } else { (whole + 1) as u128 },
    ;
    if samples > usize::MAX as u128 {
        return None;
    }
    Some(samples as usize)
}

impl StreamConfig {
    /// Ring capacity in samples: the history at the sample rate, rounded up.
    pub fn capacity_samples(&self) -> (res: Result<usize, StreamError>)
        ensures
            match config_error(*self) {
                Some(message) => res == Err::<usize, StreamError>(StreamError::InvalidConfig(message)),
                None => res == Ok::<usize, StreamError>(
                    samples_covering(self.history.nanos as int, self.sample_rate_hz as int) as usize,
                ),
            },
            res matches Ok(n) ==> n > 0,
    {
        if self.sample_rate_hz == 0 {
            return Err(StreamError::InvalidConfig("sample_rate_hz must be greater than zero"));
        }
        if self.channel_count == 0 {
            return Err(StreamError::InvalidConfig("channel_count must be greater than zero"));
        }
        if self.history.is_zero() {
            return Err(StreamError::InvalidConfig("history must be greater than zero"));
        }
        match covering(self.history.nanos, self.sample_rate_hz) {
            Some(n) => {
                assert(n > 0) by (nonlinear_arith)
                    requires
                        n == samples_covering(self.history.nanos as int, self.sample_rate_hz as int),
                        self.history.nanos > 0,
                        self.sample_rate_hz > 0,
                ;
                Ok(n)
            },
            None => Err(StreamError::InvalidConfig("history is too large")),
        }
    }

    /// Bytes the ring of single-precision values takes.
    pub fn estimated_ram_bytes(&self) -> (res: Result<usize, StreamError>)
        ensures
            match config_error(*self) {
                Some(message) => res == Err::<usize, StreamError>(StreamError::InvalidConfig(message)),
                None => {
                    let bytes = samples_covering(self.history.nanos as int, self.sample_rate_hz as int)
                        * self.channel_count * 4;
                    if bytes > usize::MAX {
                        res == Err::<usize, StreamError>(
                            StreamError::InvalidConfig("stream buffer size overflows usize"),
                        )
                    } else {
                        res == Ok::<usize, StreamError>(bytes as usize)
                    }
                },
            },
    {
        let samples = self.capacity_samples()?;
        let overflow = StreamError::InvalidConfig("stream buffer size overflows usize");
        let values = match samples.checked_mul(self.channel_count) {
            Some(v) => v,
            None => {
                assert(samples * self.channel_count * 4 > usize::MAX) by (nonlinear_arith)
                    requires
                        samples * self.channel_count > usize::MAX,
                ;
                return Err(overflow);
            },
        };
        match values.checked_mul(4) {
            Some(bytes) => Ok(bytes),
            None => Err(overflow),
        }
    }
}

/// The `p`-th slot of `ch` values of a flat storage.
pub open spec fn slot<T>(storage: Seq<T>, ch: int, p: int) -> Seq<T> {
    storage.subrange(p * ch, p * ch + ch)
}

/// The samples of `s`, concatenated in order.
pub open spec fn flat<T>(s: Seq<Seq<T>>) -> Seq<T>
    decreases s.len(),
{
    if s.len() == 0 {
        Seq::empty()
    } else {
        flat(s.drop_last()) + s.last()
    }
}

/// The state of a ring: its configuration and capacity, the retained samples
/// oldest first, the run state, and the length a running capture stops at.
pub struct StreamView<T> {
    pub config: StreamConfig,
    pub capacity: nat,
    pub samples: Seq<Seq<T>>,
    pub state: StreamState,
    pub capture_target: Option<nat>,
}

/// Ring of multi-channel samples. Storage grows to its capacity once and is
/// then reused: steady-state acquisition performs no allocation.
#[derive(Debug)]
pub struct StreamSession<T> {
    config: StreamConfig,
    capacity_samples: usize,
    storage: Vec<T>,
    filled: usize,
    oldest_sample: usize,
    sample_len: usize,
    state: StreamState,
    capture_target: Option<usize>,
}

proof fn lemma_mod_wrap(x: int, cap: int)
    requires
        cap > 0,
        0 <= x < 2 * cap,
    ensures
        x % cap == if x < cap { x } else { x - cap },
{
    if x < cap {
        vstd::arithmetic::div_mod::lemma_small_mod(x as nat, cap as nat);
    } else {
        vstd::arithmetic::div_mod::lemma_small_mod((x - cap) as nat, cap as nat);
        vstd::arithmetic::div_mod::lemma_mod_sub_multiples_vanish(x, cap);
    }
}

proof fn lemma_slot_bounds(p: int, q: int, ch: int)
    requires
        ch > 0,
        0 <= p < q,
    ensures
        p * ch + ch <= q * ch,
        0 <= p * ch,
{
    assert(p * ch + ch <= q * ch) by (nonlinear_arith)
        requires
            ch > 0,
            0 <= p < q,
    ;
    assert(0 <= p * ch) by (nonlinear_arith)
        requires
            ch > 0,
            0 <= p,
    ;
}

proof fn lemma_slot_fits(p: int, n: int, ch: int)
    requires
        ch > 0,
        0 <= p < n,
    ensures
        0 <= p * ch,
        p * ch + ch <= n * ch,
{
    lemma_slot_bounds(p, n, ch);
}

impl<T: Copy> View for StreamSession<T> {
    type V = StreamView<T>;

    closed spec fn view(&self) -> StreamView<T> {
        StreamView {
            config: self.config,
            capacity: self.capacity_samples as nat,
            samples: Seq::new(
                self.sample_len as nat,
                |i: int| slot(self.storage@, self.config.channel_count as int, self.phys(i)),
            ),
            state: self.state,
            capture_target: match self.capture_target {
                Some(t) => Some(t as nat),
                None => None,
            },
        }
    }
}

impl<T: Copy> StreamSession<T> {
    /// The ring's storage matches its bookkeeping.
    pub closed spec fn wf(&self) -> bool {
        let ch = self.config.channel_count as int;
        let cap = self.capacity_samples as int;
        &&& config_error(self.config) is None
        &&& cap == samples_covering(self.config.history.nanos as int, self.config.sample_rate_hz as int)
        &&& ch > 0
        &&& cap > 0
        &&& cap * ch <= usize::MAX
        &&& self.filled <= cap
        &&& self.storage@.len() == self.filled * ch
        &&& self.filled * ch <= cap * ch
        &&& self.sample_len <= self.filled
        &&& self.oldest_sample < cap
        &&& self.filled < cap ==> self.oldest_sample == 0
        &&& (self.state == StreamState::Capturing) == (self.capture_target is Some)
        &&& self.capture_target matches Some(t) ==> self.sample_len <= t <= cap && t > 0
    }

    /// A well-formed ring holds samples of at least one channel.
    pub proof fn lemma_width_positive(&self)
        requires
            self.wf(),
        ensures
            self@.config.channel_count > 0,
    {
    }

    /// The physical slot of logical sample `i`.
    pub closed spec fn phys(&self, i: int) -> int {
        (self.oldest_sample + i) % (self.capacity_samples as int)
    }

    proof fn lemma_phys_in_filled(&self, i: int)
        requires
            self.wf(),
            0 <= i < self.sample_len,
        ensures
            0 <= self.phys(i) < self.filled,
            0 <= self.phys(i) * self.config.channel_count,
            self.phys(i) * self.config.channel_count + self.config.channel_count <= self.storage@.len(),
    {
        let cap = self.capacity_samples as int;
        lemma_mod_wrap(self.oldest_sample + i, cap);
        lemma_slot_fits(self.phys(i), self.filled as int, self.config.channel_count as int);
    }

    pub fn new(config: StreamConfig) -> (res: Result<Self, StreamError>)
        ensures
            match config_error(config) {
                Some(message) => res matches Err(e) && e == StreamError::InvalidConfig(message),
                None => {
                    let cap = samples_covering(config.history.nanos as int, config.sample_rate_hz as int);
                    if cap * config.channel_count > usize::MAX {
                        res matches Err(e) && e == StreamError::InvalidConfig("stream buffer size overflows usize")
                    } else {
                        res matches Ok(s) && s.wf() && s.view() == (StreamView::<T> {
                            config,
                            capacity: cap as nat,
                            samples: Seq::empty(),
                            state: StreamState::Stopped,
                            capture_target: None,
                        })
                    }
                },
            },
    {
        let capacity_samples = config.capacity_samples()?;
        let values = match capacity_samples.checked_mul(config.channel_count) {
            Some(v) => v,
            None => return Err(StreamError::InvalidConfig("stream buffer size overflows usize")),
        };
        let session = StreamSession {
            config,
            capacity_samples,
            storage: Vec::with_capacity(values),
            filled: 0,
            oldest_sample: 0,
            sample_len: 0,
            state: StreamState::Stopped,
            capture_target: None,
        };
        assert(session.view().samples == Seq::<Seq<T>>::empty());
        Ok(session)
    }

    pub fn config(&self) -> (res: &StreamConfig)
        ensures
            *res == self.view().config,
    {
        &self.config
    }

    pub fn state(&self) -> (res: StreamState)
        ensures
            res == self.view().state,
    {
        self.state
    }

    pub fn len(&self) -> (res: usize)
        ensures
            res == self.view().samples.len(),
    {
        self.sample_len
    }

    pub fn is_empty(&self) -> (res: bool)
        ensures
            res == (self.view().samples.len() == 0),
    {
        self.sample_len == 0
    }

    pub fn capacity_samples(&self) -> (res: usize)
        ensures
            res == self.view().capacity,
    {
        self.capacity_samples
    }

    fn set_state(&mut self, state: StreamState)
        requires
            old(self).wf(),
            state != StreamState::Capturing,
        ensures
            final(self).wf(),
            final(self).view() == (StreamView { state, capture_target: None, ..old(self).view() }),
    {
        self.capture_target = None;
        self.state = state;
        assert(self.view().samples == old(self).view().samples);
    }

    /// Records incoming samples, overwriting the oldest when full.
    pub fn live(&mut self)
        requires
            old(self).wf(),
        ensures
            final(self).wf(),
            final(self).view() == (StreamView { state: StreamState::Live, capture_target: None, ..old(self).view() }),
    {
        self.set_state(StreamState::Live);
    }

    /// Ignores incoming samples and keeps the history.
    pub fn pause(&mut self)
        requires
            old(self).wf(),
        ensures
            final(self).wf(),
            final(self).view() == (StreamView {
                state: StreamState::Paused,
                capture_target: None,
                ..old(self).view()
            }),
    {
        self.set_state(StreamState::Paused);
    }

    pub fn stop(&mut self)
        requires
            old(self).wf(),
        ensures
            final(self).wf(),
            final(self).view() == (StreamView {
                state: StreamState::Stopped,
                capture_target: None,
                ..old(self).view()
            }),
    {
        self.set_state(StreamState::Stopped);
    }

    pub fn resume(&mut self)
        requires
            old(self).wf(),
        ensures
            final(self).wf(),
            final(self).view() == (StreamView { state: StreamState::Live, capture_target: None, ..old(self).view() }),
    {
        self.set_state(StreamState::Live);
    }

    /// Forgets every retained sample; the run state stays.
    pub fn clear(&mut self)
        requires
            old(self).wf(),
        ensures
            final(self).wf(),
            final(self).view() == (StreamView { samples: Seq::<Seq<T>>::empty(), ..old(self).view() }),
    {
        self.oldest_sample = 0;
        self.sample_len = 0;
        assert(self.view().samples == Seq::<Seq<T>>::empty());
    }
}

proof fn lemma_phys_distinct(o: int, i: int, j: int, cap: int)
    requires
        0 <= o < cap,
        0 <= i < j < cap,
    ensures
        (o + i) % cap != (o + j) % cap,
        0 <= (o + i) % cap < cap,
{
    lemma_mod_wrap(o + i, cap);
    lemma_mod_wrap(o + j, cap);
}

impl<T: Copy> StreamSession<T> {
    /// Overwrites physical slot `p` with `sample`.
    fn write_slot(&mut self, p: usize, sample: &[T])
        requires
            old(self).wf(),
            p < old(self).filled,
            sample@.len() == old(self).config.channel_count,
        ensures
            final(self).wf(),
            final(self).config == old(self).config,
            final(self).capacity_samples == old(self).capacity_samples,
            final(self).filled == old(self).filled,
            final(self).oldest_sample == old(self).oldest_sample,
            final(self).sample_len == old(self).sample_len,
            final(self).state == old(self).state,
            final(self).capture_target == old(self).capture_target,
            forall|q: int|
                0 <= q < old(self).filled ==> #[trigger] slot(
                    final(self).storage@,
                    old(self).config.channel_count as int,
                    q,
                ) == if q == p {
                    sample@
                } else {
                    slot(old(self).storage@, old(self).config.channel_count as int, q)
                },
    {
        let ch = self.config.channel_count;
        proof {
            lemma_slot_fits(p as int, self.filled as int, ch as int);
            let f = self.filled as int;
            let c = ch as int;
            let cap = self.capacity_samples as int;
            assert(f * c <= cap * c) by (nonlinear_arith)
                requires
                    f <= cap,
                    c > 0,
            ;
        }
        let start = p * ch;
        let mut k: usize = 0;
        while k < ch
            invariant
                k <= ch,
                ch == old(self).config.channel_count,
                start == p * ch,
                start + ch <= old(self).storage@.len(),
                start + ch <= usize::MAX,
                sample@.len() == ch,
                self.config == old(self).config,
                self.capacity_samples == old(self).capacity_samples,
                self.filled == old(self).filled,
                self.oldest_sample == old(self).oldest_sample,
                self.sample_len == old(self).sample_len,
                self.state == old(self).state,
                self.capture_target == old(self).capture_target,
                self.storage@.len() == old(self).storage@.len(),
                forall|x: int|
                    0 <= x < self.storage@.len() ==> #[trigger] self.storage@[x] == if start <= x < start + k {
                        sample@[x - start]
                    } else {
                        old(self).storage@[x]
                    },
            decreases ch - k,
        {
            self.storage.set(start + k, sample[k]);
            k = k + 1;
        }
        assert forall|q: int| 0 <= q < old(self).filled implies #[trigger] slot(self.storage@, ch as int, q) == if q
            == p {
            sample@
        } else {
            slot(old(self).storage@, ch as int, q)
        } by {
            lemma_slot_fits(q, self.filled as int, ch as int);
            if q < p {
                lemma_slot_bounds(q, p as int, ch as int);
            } else if p < q {
                lemma_slot_bounds(p as int, q, ch as int);
            }
        }
    }

    /// Adds a slot holding `sample` after the filled ones.
    fn append_slot(&mut self, sample: &[T])
        requires
            old(self).wf(),
            old(self).filled < old(self).capacity_samples,
            sample@.len() == old(self).config.channel_count,
        ensures
            final(self).wf(),
            final(self).config == old(self).config,
            final(self).capacity_samples == old(self).capacity_samples,
            final(self).filled == old(self).filled + 1,
            final(self).oldest_sample == old(self).oldest_sample,
            final(self).sample_len == old(self).sample_len,
            final(self).state == old(self).state,
            final(self).capture_target == old(self).capture_target,
            final(self).storage@ == old(self).storage@ + sample@,
    {
        let ch = self.config.channel_count;
        let mut k: usize = 0;
        while k < ch
            invariant
                k <= ch,
                ch == old(self).config.channel_count,
                sample@.len() == ch,
                self.config == old(self).config,
                self.capacity_samples == old(self).capacity_samples,
                self.filled == old(self).filled,
                self.oldest_sample == old(self).oldest_sample,
                self.sample_len == old(self).sample_len,
                self.state == old(self).state,
                self.capture_target == old(self).capture_target,
                self.storage@ == old(self).storage@ + sample@.take(k as int),
            decreases ch - k,
        {
            self.storage.push(sample[k]);
            k = k + 1;
            assert(self.storage@ == old(self).storage@ + sample@.take(k as int));
        }
        assert(sample@.take(ch as int) == sample@);
        let ghost before = self.filled as int;
        self.filled = self.filled + 1;
        proof {
            let n = self.storage@.len() as int;
            let f = self.filled as int;
            let c = ch as int;
            let cap = self.capacity_samples as int;
            assert(n == f * c) by (nonlinear_arith)
                requires
                    n == before * c + c,
                    f == before + 1,
            ;
            assert(f * c <= cap * c) by (nonlinear_arith)
                requires
                    f <= cap,
                    c > 0,
            ;
        }
    }

    /// Appends `sample` after the newest one; the ring is not full.
    fn push_without_overwrite(&mut self, sample: &[T])
        requires
            old(self).wf(),
            old(self).sample_len < old(self).capacity_samples,
            sample@.len() == old(self).config.channel_count,
            old(self).capture_target matches Some(t) ==> old(self).sample_len < t,
        ensures
            final(self).wf(),
            final(self).view() == (StreamView { samples: old(self).view().samples.push(sample@), ..old(self).view() }),
    {
        let ghost before = self.view().samples;
        let ghost old_storage = self.storage@;
        let ghost ch = self.config.channel_count as int;
        let cap = self.capacity_samples;
        let len = self.sample_len;
        let phys = if self.oldest_sample >= cap - len {
            self.oldest_sample - (cap - len)
        } else {
            self.oldest_sample + len
        };
        proof {
            lemma_mod_wrap(self.oldest_sample + len, cap as int);
            assert(phys == self.phys(len as int));
        }
        if phys < self.filled {
            self.write_slot(phys, sample);
        } else {
            self.append_slot(sample);
        }
        self.sample_len = len + 1;
        proof {
            let after = self.view().samples;
            assert forall|i: int| 0 <= i < after.len() implies #[trigger] after[i] == before.push(sample@)[i] by {
                lemma_mod_wrap(self.oldest_sample + i, cap as int);
                if i < len {
                    lemma_phys_distinct(self.oldest_sample as int, i, len as int, cap as int);
                    lemma_slot_fits(self.phys(i), old(self).filled as int, ch);
                    assert(old(self).phys(i) == self.phys(i));
                    if phys >= old(self).filled {
                        assert(slot(self.storage@, ch, self.phys(i)) == slot(old_storage, ch, self.phys(i)));
                    }
                } else {
                    if phys >= old(self).filled {
                        lemma_slot_fits(phys as int, self.filled as int, ch);
                        assert(phys == old(self).filled);
                        assert(slot(self.storage@, ch, phys as int) == sample@);
                    }
                }
            }
            assert(after == before.push(sample@));
        }
    }

    /// Appends `sample`, dropping the oldest one when the ring is full.
    fn push_live(&mut self, sample: &[T])
        requires
            old(self).wf(),
            old(self).capture_target is None,
            sample@.len() == old(self).config.channel_count,
        ensures
            final(self).wf(),
            final(self).view() == (StreamView {
                samples: if old(self).view().samples.len() < old(self).view().capacity {
                    old(self).view().samples.push(sample@)
                } else {
                    old(self).view().samples.drop_first().push(sample@)
                },
                ..old(self).view()
            }),
    {
        if self.sample_len < self.capacity_samples {
            self.push_without_overwrite(sample);
            return;
        }
        let ghost before = self.view().samples;
        let ghost ch = self.config.channel_count as int;
        let cap = self.capacity_samples;
        let oldest = self.oldest_sample;
        self.write_slot(oldest, sample);
        self.oldest_sample = if oldest + 1 == cap { 0 } else { oldest + 1 };
        proof {
            let after = self.view().samples;
            let expected = before.drop_first().push(sample@);
            assert forall|i: int| 0 <= i < after.len() implies #[trigger] after[i] == expected[i] by {
                lemma_mod_wrap(oldest + 1, cap as int);
                lemma_mod_wrap(self.oldest_sample + i, cap as int);
                lemma_mod_wrap(oldest + i + 1, cap as int);
                assert(self.phys(i) == old(self).phys(i + 1));
                if i + 1 < cap {
                    lemma_phys_distinct(oldest as int, 0, i + 1, cap as int);
                    lemma_mod_wrap(oldest as int, cap as int);
                } else {
                    lemma_mod_wrap(oldest as int, cap as int);
                }
            }
            assert(after == expected);
        }
    }
}

/// Whether a ring in state `v` keeps the next sample it is offered.
pub open spec fn kept<T>(v: StreamView<T>) -> bool {
    match v.state {
        StreamState::Live => true,
        StreamState::Capturing => v.samples.len() < v.capture_target->0,
        _ => false,
    }
}

/// The ring state after sample `x` (of the right width) is offered in state `v`.
pub open spec fn pushed<T>(v: StreamView<T>, x: Seq<T>) -> StreamView<T> {
    match v.state {
        StreamState::Live => StreamView {
            samples: if v.samples.len() < v.capacity {
                v.samples.push(x)
            } else {
                v.samples.drop_first().push(x)
            },
            ..v
        },
        StreamState::Capturing => {
            let target = v.capture_target->0;
            if v.samples.len() >= target {
                StreamView { state: StreamState::Paused, capture_target: None, ..v }
            } else if v.samples.len() + 1 == target {
                StreamView { samples: v.samples.push(x), state: StreamState::Paused, capture_target: None, ..v }
            } else {
                StreamView { samples: v.samples.push(x), ..v }
            }
        },
        _ => v,
    }
}

/// The ring state after the samples `xs` are offered in turn from state `v`.
pub open spec fn pushed_all<T>(v: StreamView<T>, xs: Seq<Seq<T>>) -> StreamView<T>
    decreases xs.len(),
{
    if xs.len() == 0 {
        v
    } else {
        pushed(pushed_all(v, xs.drop_last()), xs.last())
    }
}

/// The newest `n` samples of `s`.
pub open spec fn newest_samples<T>(s: Seq<Seq<T>>, n: nat) -> Seq<Seq<T>> {
    if s.len() > n {
        s.subrange(s.len() - n, s.len() as int)
    } else {
        s
    }
}

/// Live recording keeps exactly the newest `capacity` samples offered, in
/// order: the oldest are overwritten first and nothing is lost before that.
pub proof fn lemma_live_keeps_newest<T>(v: StreamView<T>, xs: Seq<Seq<T>>)
    requires
        v.state == StreamState::Live,
        v.capacity > 0,
        v.samples.len() <= v.capacity,
    ensures
        pushed_all(v, xs).state == StreamState::Live,
        pushed_all(v, xs).capacity == v.capacity,
        pushed_all(v, xs).samples == newest_samples(v.samples + xs, v.capacity),
    decreases xs.len(),
{
    if xs.len() == 0 {
        assert(v.samples + xs =~= v.samples);
    } else {
        let init = xs.drop_last();
        lemma_live_keeps_newest(v, init);
        let w = pushed_all(v, init);
        assert(pushed_all(v, xs) == pushed(w, xs.last()));
        let all = v.samples + xs;
        let prev = v.samples + init;
        assert(all =~= prev.push(xs.last()));
        let cap = v.capacity;
        if prev.len() < cap {
            assert(w.samples == prev);
            assert(pushed(w, xs.last()).samples =~= all);
        } else {
            assert(w.samples =~= prev.subrange(prev.len() - cap, prev.len() as int));
            assert(w.samples.drop_first().push(xs.last()) =~= all.subrange(all.len() - cap, all.len() as int));
        }
    }
}

/// A capture keeps the first `target` samples offered after it starts, in
/// order, and pauses as soon as it holds them; later samples are ignored.
pub proof fn lemma_capture_keeps_first<T>(v: StreamView<T>, xs: Seq<Seq<T>>)
    requires
        v.state == StreamState::Capturing,
        v.capture_target matches Some(t) && t > 0,
        v.samples.len() == 0,
    ensures
        xs.len() < v.capture_target->0 ==> pushed_all(v, xs).capture_target == v.capture_target,
        xs.len() < v.capture_target->0 ==> pushed_all(v, xs).state == StreamState::Capturing && pushed_all(
            v,
            xs,
        ).samples == xs,
        xs.len() >= v.capture_target->0 ==> pushed_all(v, xs).state == StreamState::Paused && pushed_all(
            v,
            xs,
        ).samples == xs.take(v.capture_target->0 as int),
    decreases xs.len(),
{
    if xs.len() == 0 {
        assert(v.samples =~= xs);
    } else {
        let init = xs.drop_last();
        lemma_capture_keeps_first(v, init);
        let w = pushed_all(v, init);
        assert(pushed_all(v, xs) == pushed(w, xs.last()));
        let t = v.capture_target->0;
        if init.len() < t {
            assert(init.push(xs.last()) =~= xs);
            if xs.len() == t {
                assert(xs.take(t as int) =~= xs);
            }
        } else {
            assert(init.take(t as int) =~= xs.take(t as int));
        }
    }
}

/// Every sample of `s` has `ch` values.
pub open spec fn uniform<T>(s: Seq<Seq<T>>, ch: int) -> bool {
    forall|i: int| 0 <= i < s.len() ==> (#[trigger] s[i]).len() == ch
}

/// A flattened run of `ch`-value samples holds sample `i` at `i * ch`.
pub proof fn lemma_flat_uniform<T>(s: Seq<Seq<T>>, ch: int)
    requires
        ch > 0,
        uniform(s, ch),
    ensures
        flat(s).len() == s.len() * ch,
        forall|i: int| 0 <= i < s.len() ==> #[trigger] flat(s).subrange(i * ch, i * ch + ch) == s[i],
    decreases s.len(),
{
    if s.len() > 0 {
        let init = s.drop_last();
        lemma_flat_uniform(init, ch);
        let n = init.len() as int;
        assert(flat(s).len() == s.len() * ch) by (nonlinear_arith)
            requires
                flat(s).len() == n * ch + ch,
                s.len() == n + 1,
        ;
        assert forall|i: int| 0 <= i < s.len() implies #[trigger] flat(s).subrange(i * ch, i * ch + ch) == s[i] by {
            if i < n {
                lemma_slot_bounds(i, n, ch);
                assert(flat(s).subrange(i * ch, i * ch + ch) == flat(init).subrange(i * ch, i * ch + ch));
            } else {
                assert(i * ch == n * ch);
                assert(flat(s).subrange(i * ch, i * ch + ch) == s.last());
            }
        }
    }
}

/// The logical range `[start, end)` a window of at most `max` samples ending
/// `offset` samples before the newest one covers, out of `len`.
pub open spec fn window_bounds(len: int, max: int, offset: int) -> (int, int) {
    let end = len - (if offset < len { offset } else { len });
    let start = end - (if max < end { max } else { end });
    (start, end)
}

/// A window ends `offset` samples before the newest of `len` retained ones
/// (at the start when `offset` reaches past the oldest) and holds the newest
/// `max` samples up to that end, or every one of them when there are no more
/// than `max`.
pub proof fn lemma_window_holds_newest(len: int, max: int, offset: int)
    requires
        0 <= len,
        0 <= max,
        0 <= offset,
    ensures
        0 <= window_bounds(len, max, offset).0 <= window_bounds(len, max, offset).1 <= len,
        offset <= len ==> window_bounds(len, max, offset).1 == len - offset,
        offset > len ==> window_bounds(len, max, offset).1 == 0,
        max >= window_bounds(len, max, offset).1 ==> window_bounds(len, max, offset).0 == 0,
        max < window_bounds(len, max, offset).1 ==> window_bounds(len, max, offset).1 - window_bounds(
            len,
            max,
            offset,
        ).0 == max,
{
}

/// A tail window at least as long as the history holds all of it.
pub proof fn lemma_tail_holds_everything<T>(samples: Seq<Seq<T>>, max: int)
    requires
        max >= samples.len(),
    ensures
        samples.subrange(
            window_bounds(samples.len() as int, max, 0).0,
            window_bounds(samples.len() as int, max, 0).1,
        ) == samples,
{
    lemma_window_holds_newest(samples.len() as int, max, 0);
    assert(samples.subrange(0, samples.len() as int) =~= samples);
}

/// A copy of part of a ring's history.
#[derive(Debug, Clone)]
pub struct StreamSnapshot<T> {
    pub config: StreamConfig,
    /// Sample-major values: sample 0's channels, then sample 1's, ...
    pub values: Vec<T>,
}

impl<T: Copy> StreamSnapshot<T> {
    pub fn sample_count(&self) -> (res: usize)
        requires
            self.config.channel_count > 0,
        ensures
            res == self.values@.len() as int / (self.config.channel_count as int),
    {
        self.values.len() / self.config.channel_count
    }

    /// The time the snapshot's samples span at the sample rate, rounded down
    /// to whole nanoseconds.
    pub fn duration(&self) -> (res: TimeSpan)
        requires
            self.config.channel_count > 0,
            self.config.sample_rate_hz > 0,
        ensures
            res.nanos == (self.values@.len() as int / (self.config.channel_count as int)) * NANOS_PER_SECOND
                / (self.config.sample_rate_hz as int),
    {
        let count = self.sample_count() as u128;
        assert(count * NANOS_PER_SECOND <= u64::MAX * 1_000_000_000) by (nonlinear_arith)
            requires
                count <= u64::MAX,
        ;
        TimeSpan { nanos: count * NANOS_PER_SECOND / self.config.sample_rate_hz as u128 }
    }

    /// The values of sample `index`, if the snapshot has it.
    pub fn sample(&self, index: usize) -> (res: Option<&[T]>)
        requires
            self.config.channel_count > 0,
        ensures
            index < self.values@.len() as int / (self.config.channel_count as int) ==> (res matches Some(values)
                && values@ == slot(self.values@, self.config.channel_count as int, index as int)),
            index >= self.values@.len() as int / (self.config.channel_count as int) ==> res is None,
    {
        let ch = self.config.channel_count;
        let total = self.values.len();
        if index >= self.sample_count() {
            return None;
        }
        proof {
            let n = self.values@.len() as int / ch as int;
            assert(total == self.values@.len());
            lemma_slot_fits(index as int, n, ch as int);
            assert(n * ch <= self.values@.len()) by (nonlinear_arith)
                requires
                    n == self.values@.len() as int / ch as int,
                    ch > 0,
            ;
        }
        let start = index * ch;
        Some(vstd::slice::slice_subrange(self.values.as_slice(), start, start + ch))
    }
}

impl<T: Copy> StreamSession<T> {
    /// Clears the history and records the next samples covering `duration`,
    /// then pauses.
    pub fn capture(&mut self, duration: TimeSpan) -> (res: Result<(), StreamError>)
        requires
            old(self).wf(),
        ensures
            final(self).wf(),
            ({
                let requested = samples_covering(duration.nanos as int, old(self).view().config.sample_rate_hz as int);
                let capacity = old(self).view().capacity;
                if duration.nanos == 0 {
                    res == Err::<(), StreamError>(StreamError::InvalidCaptureDuration) && final(self).view()
                        == old(self).view()
                } else if requested > usize::MAX {
                    res == Err::<(), StreamError>(
                        StreamError::CaptureTooLong { requested: usize::MAX, capacity: capacity as usize },
                    ) && final(self).view() == old(self).view()
                } else if requested > capacity {
                    res == Err::<(), StreamError>(
                        StreamError::CaptureTooLong { requested: requested as usize, capacity: capacity as usize },
                    ) && final(self).view() == old(self).view()
                } else {
                    res == Ok::<(), StreamError>(()) && final(self).view() == (StreamView {
                        samples: Seq::<Seq<T>>::empty(),
                        state: StreamState::Capturing,
                        capture_target: Some(requested as nat),
                        ..old(self).view()
                    })
                }
            }),
    {
        if duration.is_zero() {
            return Err(StreamError::InvalidCaptureDuration);
        }
        let requested = match covering(duration.nanos, self.config.sample_rate_hz) {
            Some(n) => n,
            None => {
                return Err(StreamError::CaptureTooLong { requested: usize::MAX, capacity: self.capacity_samples });
            },
        };
        if requested > self.capacity_samples {
            return Err(StreamError::CaptureTooLong { requested, capacity: self.capacity_samples });
        }
        assert(requested > 0) by (nonlinear_arith)
            requires
                requested == samples_covering(duration.nanos as int, self.config.sample_rate_hz as int),
                duration.nanos > 0,
                self.config.sample_rate_hz > 0,
        ;
        self.clear();
        self.capture_target = Some(requested);
        self.state = StreamState::Capturing;
        assert(self.view().samples == Seq::<Seq<T>>::empty());
        Ok(())
    }

    /// Offers one sample of engineering values; returns whether it was kept.
    /// A stopped or paused ring ignores samples; a capture keeps samples
    /// until it holds its target, then pauses.
    pub fn push_sample(&mut self, sample: &[T]) -> (res: Result<bool, StreamError>)
        requires
            old(self).wf(),
        ensures
            final(self).wf(),
            ({
                let v = old(self).view();
                if sample@.len() != v.config.channel_count {
                    res == Err::<bool, StreamError>(
                        StreamError::ChannelCount { expected: v.config.channel_count, actual: sample@.len() as usize },
                    ) && final(self).view() == v
                } else {
                    res == Ok::<bool, StreamError>(kept(v)) && final(self).view() == pushed(v, sample@)
                }
            }),
    {
        if sample.len() != self.config.channel_count {
            return Err(StreamError::ChannelCount { expected: self.config.channel_count, actual: sample.len() });
        }
        match self.state {
            StreamState::Stopped | StreamState::Paused => {
                return Ok(false);
            },
            StreamState::Live => {
                self.push_live(sample);
            },
            StreamState::Capturing => {
                let target = match self.capture_target {
                    Some(t) => t,
                    None => 0,
                };
                if self.sample_len >= target {
                    self.set_state(StreamState::Paused);
                    return Ok(false);
                }
                let ghost before = self.view();
                self.push_without_overwrite(sample);
                assert(self.sample_len == self.view().samples.len());
                assert(self.view().samples.len() == before.samples.len() + 1);
                if self.sample_len == target {
                    self.set_state(StreamState::Paused);
                }
            },
        }
        Ok(true)
    }

    /// Copies at most `max_samples` consecutive samples in time order, the
    /// newest of them `end_offset_samples` before the newest retained one.
    pub fn snapshot_window(&self, max_samples: usize, end_offset_samples: usize) -> (res: StreamSnapshot<T>)
        requires
            self.wf(),
        ensures
            res.config == self.view().config,
            ({
                let (start, end) = window_bounds(
                    self.view().samples.len() as int,
                    max_samples as int,
                    end_offset_samples as int,
                );
                res.values@ == flat(self.view().samples.subrange(start, end))
            }),
            end_offset_samples == 0 && max_samples >= self.view().samples.len() ==> res.values@ == flat(
                self.view().samples,
            ),
    {
        proof {
            if max_samples >= self.view().samples.len() {
                lemma_tail_holds_everything(self.view().samples, max_samples as int);
            }
        }
        let available = self.sample_len;
        let end = available - if end_offset_samples < available { end_offset_samples } else { available };
        let start = end - if max_samples < end { max_samples } else { end };
        let ch = self.config.channel_count;
        let cap = self.capacity_samples;
        let ghost samples = self.view().samples;
        let mut values: Vec<T> = Vec::new();
        let mut logical = start;
        while logical < end
            invariant
                self.wf(),
                start <= logical <= end,
                end <= self.sample_len,
                ch == self.config.channel_count,
                cap == self.capacity_samples,
                samples == self.view().samples,
                values@ == flat(samples.subrange(start as int, logical as int)),
            decreases end - logical,
        {
            let oldest = self.oldest_sample;
            let phys = if oldest >= cap - logical { oldest - (cap - logical) } else { oldest + logical };
            proof {
                lemma_mod_wrap(oldest + logical, cap as int);
                assert(phys == self.phys(logical as int));
                self.lemma_phys_in_filled(logical as int);
            }
            let base = phys * ch;
            assert(base + ch <= usize::MAX);
            let ghost before = values@;
            let mut k: usize = 0;
            while k < ch
                invariant
                    k <= ch,
                    ch == self.config.channel_count,
                    base + ch <= self.storage@.len(),
                    base + ch <= usize::MAX,
                    values@ == before + self.storage@.subrange(base as int, base + k),
                decreases ch - k,
            {
                values.push(self.storage[base + k]);
                k = k + 1;
                assert(values@ == before + self.storage@.subrange(base as int, base + k));
            }
            proof {
                let next = samples.subrange(start as int, logical + 1);
                assert(next.drop_last() == samples.subrange(start as int, logical as int));
                assert(next.last() == samples[logical as int]);
            }
            logical = logical + 1;
        }
        StreamSnapshot { config: self.config, values }
    }

    /// Copies the newest `max_samples` samples in time order.
    pub fn snapshot_tail(&self, max_samples: usize) -> (res: StreamSnapshot<T>)
        requires
            self.wf(),
        ensures
            res.config == self.view().config,
            ({
                let (start, end) = window_bounds(self.view().samples.len() as int, max_samples as int, 0);
                res.values@ == flat(self.view().samples.subrange(start, end))
            }),
            max_samples >= self.view().samples.len() ==> res.values@ == flat(self.view().samples),
    {
        self.snapshot_window(max_samples, 0)
    }

    /// Copies every retained sample in time order.
    pub fn snapshot(&self) -> (res: StreamSnapshot<T>)
        requires
            self.wf(),
        ensures
            res.config == self.view().config,
            res.values@ == flat(self.view().samples),
    {
        let res = self.snapshot_tail(self.sample_len);
        assert(self.view().samples.subrange(0, self.sample_len as int) == self.view().samples);
        res
    }
}

} // verus!
