//! Grain scheduling: when a grain is triggered, how far the stretch sequence
//! advances, which of the two voices restarts, and what each voice reads.
//!
//! `S` is the caller's type for grain lengths and offsets; the scheduler only
//! stores and hands back such values, so sizes are also passed in whole
//! samples where a decision depends on them.
use crate::modes::PlaybackDirection;
use crate::ring::CircularBuffer;
use vstd::prelude::*;

verus! {

/// The playback state of one grain voice.
#[derive(Clone, Copy)]
pub struct GrainVoice<S> {
    /// Samples played since this voice last restarted.
    pub read_index: u64,
    /// Start offset within the current resampled block.
    pub read_offset: S,
    /// A forced restart is pending for this voice.
    pub trigger_stretch: bool,
    /// How many blocks back the voice reads: its replay depth.
    pub stretch_multiplier: u64,
}

/// What one voice reads for the current sample.
#[derive(Clone, Copy)]
pub struct GrainRead<S> {
    pub read_index: u64,
    pub read_offset: S,
    pub stretch_multiplier: u64,
    /// The voice reads its window from the end backward.
    pub reverse: bool,
}

/// The work for the current sample: how many samples to resample into the
/// grain buffer first (zero when no grain is triggered), then each voice's read.
#[derive(Clone, Copy)]
pub struct GrainPlan<S> {
    pub resample_count: u64,
    pub first: Option<GrainRead<S>>,
    pub second: Option<GrainRead<S>>,
}

/// The scheduling state of the granular engine.
#[derive(Clone, Copy)]
pub struct GrainScheduler<S> {
    /// Samples since the last grain trigger.
    pub written_samples_ctr: u64,
    pub first: GrainVoice<S>,
    pub second: GrainVoice<S>,
    pub stretch_ctr: u8,
    pub stretch_factor: u8,
    pub next_stretch_factor: u8,
    /// The offset a restarted voice starts from.
    pub zero_offset: S,
}

/// `x + d`, held at the largest `u64`.
pub open spec fn saturating_add(x: u64, d: u64) -> u64 {
    if x + d > u64::MAX {
        u64::MAX
    } else {
        (x + d) as u64
    }
}

/// One grain trigger's step of the stretch counter: it counts modulo
/// `factor`, and the multiplier increment is one only where it wraps.
pub open spec fn stretch_advance(ctr: u8, factor: u8) -> (u8, u64) {
    if ctr + 1 >= factor {
        (0u8, 1u64)
    } else {
        ((ctr + 1) as u8, 0u64)
    }
}

/// The grain buffer's cursor lies inside the window a restarting voice is
/// about to read.
pub open spec fn collides(write_index: int, output_len: int) -> bool {
    0 < write_index < output_len
}

/// A voice restarting against `other`: it plays from the start of the new
/// block, the other voice is staggered by one grain, and the replay depth
/// either drops to one (forced, or the cursor collides) or follows the other
/// voice's depth plus the stretch increment.
pub open spec fn restart<S>(
    v: GrainVoice<S>,
    other: GrainVoice<S>,
    zero: S,
    output_size: S,
    incr: u64,
    collision: bool,
) -> (GrainVoice<S>, GrainVoice<S>) {
    (
        GrainVoice {
            read_index: 0,
            read_offset: zero,
            trigger_stretch: false,
            stretch_multiplier: if v.trigger_stretch || collision {
                1
            } else {
                saturating_add(other.stretch_multiplier, incr)
            },
        },
        GrainVoice {
            read_index: other.read_index,
            read_offset: output_size,
            trigger_stretch: other.trigger_stretch,
            stretch_multiplier: other.stretch_multiplier,
        },
    )
}

/// A voice with pending samples reads one and moves on; a finished one is idle.
pub open spec fn voice_read<S>(v: GrainVoice<S>, output_len: u64, reverse: bool) -> (
    GrainVoice<S>,
    Option<GrainRead<S>>,
) {
    if v.read_index < output_len {
        (
            GrainVoice { read_index: (v.read_index + 1) as u64, ..v },
            Some(
                GrainRead {
                    read_index: v.read_index,
                    read_offset: v.read_offset,
                    stretch_multiplier: v.stretch_multiplier,
                    reverse,
                },
            ),
        )
    } else {
        (v, None)
    }
}

/// `true` when a grain is due: more samples have passed than the stride.
pub open spec fn fires(written: u64, stride: i64) -> bool {
    written > stride
}

/// The stretch counter after `n` grain triggers under a fixed `factor`, and
/// the sum of the multiplier increments they produced.
pub open spec fn stretch_run(ctr: u8, factor: u8, n: nat) -> (u8, nat)
    decreases n,
{
    if n == 0 {
        (ctr, 0)
    } else {
        let (c, t) = stretch_run(ctr, factor, (n - 1) as nat);
        let (c2, i) = stretch_advance(c, factor);
        (c2, (t + i) as nat)
    }
}

proof fn lemma_stretch_prefix(factor: u8, k: nat)
    requires
        k < factor,
    ensures
        stretch_run(0, factor, k) == (k as u8, 0nat),
    decreases k,
{
    if k > 0 {
        lemma_stretch_prefix(factor, (k - 1) as nat);
    }
}

proof fn lemma_stretch_compose(ctr: u8, factor: u8, a: nat, b: nat)
    ensures
        ({
            let (c, t) = stretch_run(ctr, factor, a);
            let (c2, t2) = stretch_run(c, factor, b);
            stretch_run(ctr, factor, a + b) == (c2, t + t2)
        }),
    decreases b,
{
    if b > 0 {
        lemma_stretch_compose(ctr, factor, a, (b - 1) as nat);
        assert((a + b - 1) as nat == a + (b - 1) as nat);
    }
}

/// Under a sustained stretch factor `S ≥ 1`, starting from a wrapped counter,
/// every `S` grain triggers bring the counter back to zero and raise the
/// replay depth by exactly one, on the trigger where the counter wraps.
pub proof fn lemma_stretch_replays(factor: u8, j: nat)
    requires
        factor >= 1,
    ensures
        stretch_run(0, factor, (factor * j) as nat) == (0u8, j),
    decreases j,
{
    let f = factor as nat;
    if j == 0 {
        assert(f * j == 0) by (nonlinear_arith)
            requires
                j == 0,
        ;
    } else {
        let jp = (j - 1) as nat;
        lemma_stretch_replays(factor, jp);
        lemma_stretch_prefix(factor, (f - 1) as nat);
        lemma_stretch_compose(0, factor, f * jp, (f - 1) as nat);
        lemma_stretch_compose(0, factor, f * jp, f);
        assert(f * jp + f == f * j) by (nonlinear_arith)
            requires
                jp + 1 == j,
        ;
        assert(stretch_run(0, factor, f) == (0u8, 1nat));
    }
}

proof fn lemma_stretch_run_bound(ctr: u8, factor: u8, n: nat)
    ensures
        stretch_run(ctr, factor, n).1 <= n,
    decreases n,
{
    if n > 0 {
        lemma_stretch_run_bound(ctr, factor, (n - 1) as nat);
    }
}

fn restart_voice<S: Copy>(
    v: &mut GrainVoice<S>,
    other: &mut GrainVoice<S>,
    zero: S,
    output_size: S,
    incr: u64,
    collision: bool,
)
    ensures
        (*final(v), *final(other)) == restart(*old(v), *old(other), zero, output_size, incr, collision),
{
    v.read_index = 0;
    v.read_offset = zero;
    other.read_offset = output_size;
    if v.trigger_stretch || collision {
        v.stretch_multiplier = 1;
    } else if other.stretch_multiplier <= u64::MAX - incr {
        v.stretch_multiplier = other.stretch_multiplier + incr;
    } else {
        v.stretch_multiplier = u64::MAX;
    }
    v.trigger_stretch = false;
}

fn read_voice<S: Copy>(v: &mut GrainVoice<S>, output_len: u64, reverse: bool) -> (r: Option<GrainRead<S>>)
    ensures
        (*final(v), r) == voice_read(*old(v), output_len, reverse),
{
    if v.read_index < output_len {
        let r = GrainRead {
            read_index: v.read_index,
            read_offset: v.read_offset,
            stretch_multiplier: v.stretch_multiplier,
            reverse,
        };
        v.read_index = v.read_index + 1;
        Some(r)
    } else {
        None
    }
}

impl<S: Copy> GrainScheduler<S> {
    pub open spec fn fresh_voice(zero: S) -> GrainVoice<S> {
        GrainVoice { read_index: 0, read_offset: zero, trigger_stretch: false, stretch_multiplier: 1 }
    }

    /// An idle scheduler: both voices at the start with depth one, no stretch.
    pub open spec fn new_spec(zero_offset: S) -> GrainScheduler<S> {
        GrainScheduler {
            written_samples_ctr: 0,
            first: Self::fresh_voice(zero_offset),
            second: Self::fresh_voice(zero_offset),
            stretch_ctr: 0,
            stretch_factor: 1,
            next_stretch_factor: 1,
            zero_offset,
        }
    }

    /// Both voices back at the start with depth one, both counters at zero,
    /// and the pending stretch change dropped; the factor in effect is kept.
    pub open spec fn reset_spec(self) -> GrainScheduler<S> {
        GrainScheduler {
            written_samples_ctr: 0,
            first: Self::fresh_voice(self.zero_offset),
            second: Self::fresh_voice(self.zero_offset),
            stretch_ctr: 0,
            stretch_factor: self.stretch_factor,
            next_stretch_factor: self.stretch_factor,
            zero_offset: self.zero_offset,
        }
    }

    pub fn new(zero_offset: S) -> (r: GrainScheduler<S>)
        ensures
            r == Self::new_spec(zero_offset),
    {
        GrainScheduler {
            written_samples_ctr: 0,
            first: GrainVoice { read_index: 0, read_offset: zero_offset, trigger_stretch: false, stretch_multiplier: 1 },
            second: GrainVoice { read_index: 0, read_offset: zero_offset, trigger_stretch: false, stretch_multiplier: 1 },
            stretch_ctr: 0,
            stretch_factor: 1,
            next_stretch_factor: 1,
            zero_offset,
        }
    }

    /// The state once this sample's grain trigger has been decided: pending
    /// forced restarts are recorded, the stretch change is queued, and if a
    /// grain is due the stride count restarts, the stretch counter advances
    /// under the factor in effect, the queued factor takes effect, and the
    /// voice that has finished its block (the first one, else the second)
    /// restarts against the other. `out_cursor` is where the grain buffer's
    /// cursor stands once the new block is written.
    pub open spec fn triggered(
        self,
        out_cursor: int,
        output_len: u64,
        stride: i64,
        output_size: S,
        stretch_factor: u8,
        trigger_stretch: bool,
    ) -> GrainScheduler<S> {
        let first = GrainVoice { trigger_stretch: self.first.trigger_stretch || trigger_stretch, ..self.first };
        let second = GrainVoice { trigger_stretch: self.second.trigger_stretch || trigger_stretch, ..self.second };
        if !fires(self.written_samples_ctr, stride) {
            GrainScheduler { first, second, next_stretch_factor: stretch_factor, ..self }
        } else {
            let (ctr, incr) = stretch_advance(self.stretch_ctr, self.stretch_factor);
            let collision = collides(out_cursor, output_len as int);
            let (a, b) = if first.read_index >= output_len {
                restart(first, second, self.zero_offset, output_size, incr, collision)
            } else if second.read_index >= output_len {
                let (b2, a2) = restart(second, first, self.zero_offset, output_size, incr, collision);
                (a2, b2)
            } else {
                (first, second)
            };
            GrainScheduler {
                written_samples_ctr: 0,
                first: a,
                second: b,
                stretch_ctr: ctr,
                stretch_factor,
                next_stretch_factor: stretch_factor,
                zero_offset: self.zero_offset,
            }
        }
    }

    /// The state after each voice with samples left reads one, and the
    /// sample is counted; with the reads made.
    pub open spec fn played(self, output_len: u64, direction: PlaybackDirection) -> (
        GrainScheduler<S>,
        Option<GrainRead<S>>,
        Option<GrainRead<S>>,
    ) {
        let (a, ra) = voice_read(self.first, output_len, direction.spec_reads_reverse(0));
        let (b, rb) = voice_read(self.second, output_len, direction.spec_reads_reverse(1));
        (
            GrainScheduler {
                written_samples_ctr: saturating_add(self.written_samples_ctr, 1),
                first: a,
                second: b,
                ..self
            },
            ra,
            rb,
        )
    }

    /// The deeper of the two voices' replay depths.
    pub open spec fn depth(self) -> u64 {
        if self.first.stretch_multiplier >= self.second.stretch_multiplier {
            self.first.stretch_multiplier
        } else {
            self.second.stretch_multiplier
        }
    }

    /// No forced restart is pending on either voice.
    pub open spec fn unforced(self) -> bool {
        !self.first.trigger_stretch && !self.second.trigger_stretch
    }

    /// The transition of `tick` for one sample with no forced restart and the
    /// stretch factor in effect held.
    pub open spec fn steady_step(
        self,
        out_cursor: int,
        output_len: u64,
        stride: i64,
        output_size: S,
        direction: PlaybackDirection,
    ) -> GrainScheduler<S> {
        self.triggered(out_cursor, output_len, stride, output_size, self.stretch_factor, false).played(
            output_len,
            direction,
        ).0
    }

    /// The state after one steady sample per entry of `cursors` (where the
    /// grain buffer's cursor stands once that sample's block is written),
    /// and how many of those samples triggered a grain.
    pub open spec fn steady_run(
        self,
        cursors: Seq<int>,
        output_len: u64,
        stride: i64,
        output_size: S,
        direction: PlaybackDirection,
    ) -> (GrainScheduler<S>, nat)
        decreases cursors.len(),
    {
        if cursors.len() == 0 {
            (self, 0)
        } else {
            let (p, t) = self.steady_run(cursors.drop_last(), output_len, stride, output_size, direction);
            (
                p.steady_step(cursors.last(), output_len, stride, output_size, direction),
                if fires(p.written_samples_ctr, stride) {
                    t + 1
                } else {
                    t
                },
            )
        }
    }

    /// If a grain is due, the voices take turns: the voice that restarts has
    /// finished its block and reads no deeper than the other, and the grain
    /// buffer's cursor does not collide with the new window.
    pub open spec fn alternates(self, out_cursor: int, output_len: u64, stride: i64) -> bool {
        fires(self.written_samples_ctr, stride) ==> {
            &&& !collides(out_cursor, output_len as int)
            &&& if self.first.read_index >= output_len {
                self.first.stretch_multiplier <= self.second.stretch_multiplier
            } else {
                self.second.read_index >= output_len && self.second.stretch_multiplier
                    <= self.first.stretch_multiplier
            }
        }
    }

    /// One steady sample: a triggered grain deepens the voices by the stretch
    /// counter's increment and advances it; any other sample leaves both alone.
    pub proof fn lemma_steady_step(
        self,
        out_cursor: int,
        output_len: u64,
        stride: i64,
        output_size: S,
        direction: PlaybackDirection,
    )
        requires
            self.unforced(),
            self.alternates(out_cursor, output_len, stride),
            self.depth() < u64::MAX,
        ensures
            ({
                let n = self.steady_step(out_cursor, output_len, stride, output_size, direction);
                let (ctr, incr) = stretch_advance(self.stretch_ctr, self.stretch_factor);
                &&& n.unforced()
                &&& n.stretch_factor == self.stretch_factor
                &&& fires(self.written_samples_ctr, stride) ==> n.depth() == self.depth() + incr
                    && n.stretch_ctr == ctr
                &&& !fires(self.written_samples_ctr, stride) ==> n.depth() == self.depth()
                    && n.stretch_ctr == self.stretch_ctr
            }),
    {
    }

    /// Over any run of steady samples in which the voices take turns, the
    /// replay depth grows by exactly the stretch counter's increments over
    /// the grains triggered.
    pub proof fn lemma_steady_run_depth(
        self,
        cursors: Seq<int>,
        output_len: u64,
        stride: i64,
        output_size: S,
        direction: PlaybackDirection,
    )
        requires
            self.unforced(),
            self.depth() + cursors.len() <= u64::MAX,
            forall|k: int|
                0 <= k < cursors.len() ==> #[trigger] self.steady_run(
                    cursors.take(k),
                    output_len,
                    stride,
                    output_size,
                    direction,
                ).0.alternates(cursors[k], output_len, stride),
        ensures
            ({
                let (e, t) = self.steady_run(cursors, output_len, stride, output_size, direction);
                let (ctr, total) = stretch_run(self.stretch_ctr, self.stretch_factor, t);
                &&& e.depth() == self.depth() + total
                &&& e.stretch_ctr == ctr
                &&& e.stretch_factor == self.stretch_factor
                &&& e.unforced()
                &&& t <= cursors.len()
            }),
        decreases cursors.len(),
    {
        if cursors.len() > 0 {
            let n = cursors.len() - 1;
            let prefix = cursors.drop_last();
            assert forall|k: int| 0 <= k < prefix.len() implies #[trigger] self.steady_run(
                prefix.take(k),
                output_len,
                stride,
                output_size,
                direction,
            ).0.alternates(prefix[k], output_len, stride) by {
                assert(prefix.take(k) == cursors.take(k));
                assert(self.steady_run(cursors.take(k), output_len, stride, output_size, direction).0.alternates(
                    cursors[k],
                    output_len,
                    stride,
                ));
            }
            self.lemma_steady_run_depth(prefix, output_len, stride, output_size, direction);
            let (p, t) = self.steady_run(prefix, output_len, stride, output_size, direction);
            lemma_stretch_run_bound(self.stretch_ctr, self.stretch_factor, t);
            assert(cursors.take(n) == prefix);
            assert(p.alternates(cursors[n], output_len, stride));
            p.lemma_steady_step(cursors.last(), output_len, stride, output_size, direction);
        }
    }

    /// Under a sustained stretch factor `S ≥ 1` with no forced restarts, the
    /// voices taking turns and no cursor collision, starting from a wrapped
    /// counter: once `S * j` grains have triggered the replay depth is exactly
    /// `j` deeper, rising by one on each `S`-th trigger.
    pub proof fn lemma_sustained_stretch_depth(
        self,
        cursors: Seq<int>,
        output_len: u64,
        stride: i64,
        output_size: S,
        direction: PlaybackDirection,
        j: nat,
    )
        requires
            self.stretch_factor >= 1,
            self.stretch_ctr == 0,
            self.unforced(),
            self.depth() + cursors.len() <= u64::MAX,
            forall|k: int|
                0 <= k < cursors.len() ==> #[trigger] self.steady_run(
                    cursors.take(k),
                    output_len,
                    stride,
                    output_size,
                    direction,
                ).0.alternates(cursors[k], output_len, stride),
            self.steady_run(cursors, output_len, stride, output_size, direction).1 == self.stretch_factor * j,
        ensures
            self.steady_run(cursors, output_len, stride, output_size, direction).0.depth() == self.depth() + j,
            self.steady_run(cursors, output_len, stride, output_size, direction).0.stretch_ctr == 0,
    {
        self.lemma_steady_run_depth(cursors, output_len, stride, output_size, direction);
        lemma_stretch_replays(self.stretch_factor, j);
    }

    /// Schedules one output sample. `output_len` is the grain length in whole
    /// samples (rounded up), `stride` the whole samples between triggers
    /// (rounded down), and `output_size` the grain length as the caller
    /// measures it, which becomes the other voice's offset on a restart. A
    /// triggered grain resamples `output_len` samples into `output_buffer`
    /// before the voices read; the plan says how many and what each reads.
    pub fn tick<T: Copy>(
        &mut self,
        output_buffer: &CircularBuffer<T>,
        output_len: u64,
        stride: i64,
        output_size: S,
        stretch_factor: u8,
        trigger_stretch: bool,
        direction: PlaybackDirection,
    ) -> (r: GrainPlan<S>)
        requires
            output_buffer.wf(),
        ensures
            ({
                let out_cursor = (output_buffer@.cursor + output_len) % (output_buffer@.capacity() as int);
                let mid = old(self).triggered(out_cursor, output_len, stride, output_size, stretch_factor, trigger_stretch);
                let (next, ra, rb) = mid.played(output_len, direction);
                &&& *final(self) == next
                &&& r.first == ra
                &&& r.second == rb
                &&& r.resample_count == if fires(old(self).written_samples_ctr, stride) { output_len } else { 0 }
            }),
    {
        let ghost out_cursor = (output_buffer@.cursor + output_len) % (output_buffer@.capacity() as int);
        self.next_stretch_factor = stretch_factor;
        if trigger_stretch {
            self.first.trigger_stretch = true;
            self.second.trigger_stretch = true;
        }
        let mut resample_count: u64 = 0;
        if stride < 0 || self.written_samples_ctr > stride as u64 {
            self.written_samples_ctr = 0;
            let mut incr: u64 = 0;
            let next_ctr: u16 = self.stretch_ctr as u16 + 1;
            if next_ctr >= self.stretch_factor as u16 {
                self.stretch_ctr = 0;
                incr = 1;
            } else {
                self.stretch_ctr = next_ctr as u8;
            }
            self.stretch_factor = self.next_stretch_factor;
            resample_count = output_len;

            proof {
                output_buffer.lemma_wf();
            }
            let cap = output_buffer.capacity();
            let advance = (output_len % (cap as u64)) as usize;
            let cursor = (output_buffer.write_index() + advance) % cap;
            proof {
                vstd::arithmetic::div_mod::lemma_add_mod_noop_right(
                    output_buffer@.cursor as int,
                    output_len as int,
                    cap as int,
                );
            }
            let collision = cursor > 0 && (cursor as u64) < output_len;
            if self.first.read_index >= output_len {
                restart_voice(&mut self.first, &mut self.second, self.zero_offset, output_size, incr, collision);
            } else if self.second.read_index >= output_len {
                restart_voice(&mut self.second, &mut self.first, self.zero_offset, output_size, incr, collision);
            }
        }
        let first = read_voice(&mut self.first, output_len, direction.reads_reverse(0));
        let second = read_voice(&mut self.second, output_len, direction.reads_reverse(1));
        if self.written_samples_ctr < u64::MAX {
            self.written_samples_ctr = self.written_samples_ctr + 1;
        }
        GrainPlan { resample_count, first, second }
    }

    /// The stretch factor in effect.
    pub fn current_stretch_factor(&self) -> (r: u8)
        ensures
            r == self.stretch_factor,
    {
        self.stretch_factor
    }

    /// Returns both voices to the start with depth one, zeroes both counters
    /// and drops a pending stretch change.
    pub fn reset(&mut self)
        ensures
            *final(self) == old(self).reset_spec(),
    {
        self.written_samples_ctr = 0;
        self.stretch_ctr = 0;
        self.first = GrainVoice { read_index: 0, read_offset: self.zero_offset, trigger_stretch: false, stretch_multiplier: 1 };
        self.second = GrainVoice { read_index: 0, read_offset: self.zero_offset, trigger_stretch: false, stretch_multiplier: 1 };
        self.next_stretch_factor = self.stretch_factor;
    }
}

} // verus!
