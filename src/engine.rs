//! The state of one granular engine channel: its input history, the buffer
//! of resampled grain blocks, and the grain scheduler.
use crate::grain::{GrainPlan, GrainScheduler};
use crate::modes::PlaybackDirection;
use crate::ring::{is_next_pow2, lemma_constant_history, CircularBuffer};
use vstd::prelude::*;

verus! {

/// The buffers and scheduling state of one engine channel. Samples are of
/// type `T`; grain lengths and offsets of type `S`.
pub struct GranularCore<T, S> {
    /// What was fed to the engine, feedback included.
    pub input_buffer: CircularBuffer<T>,
    /// Resampled grain blocks that the voices play from.
    pub output_buffer: CircularBuffer<T>,
    pub scheduler: GrainScheduler<S>,
}

impl<T: Copy, S: Copy> GranularCore<T, S> {
    pub open spec fn wf(&self) -> bool {
        self.input_buffer.wf() && self.output_buffer.wf()
    }

    /// An engine sized for grains of up to `max_output_samples` output
    /// samples, pitch-shifted by a factor of up to `max_pitch_shift_factor`:
    /// the input history holds two of the longest input grains and the grain
    /// buffer four of the longest output grains, each rounded up to a power
    /// of two and filled with `silence`.
    pub fn new(
        max_output_samples: usize,
        max_pitch_shift_factor: usize,
        silence: T,
        zero_offset: S,
    ) -> (r: GranularCore<T, S>)
        requires
            max_output_samples <= 0x1000_0000,
            max_output_samples * max_pitch_shift_factor <= 0x2000_0000,
        ensures
            r.wf(),
            is_next_pow2(
                (2 * max_output_samples * max_pitch_shift_factor) as nat,
                r.input_buffer@.capacity(),
            ),
            is_next_pow2((4 * max_output_samples) as nat, r.output_buffer@.capacity()),
            r.input_buffer@.cursor == 0,
            r.output_buffer@.cursor == 0,
            forall|d: int| #[trigger] r.input_buffer@.delayed(d) == silence,
            forall|d: int| #[trigger] r.output_buffer@.delayed(d) == silence,
            r.scheduler == GrainScheduler::new_spec(zero_offset),
    {
        let max_input_samples = max_output_samples * max_pitch_shift_factor;
        let input_buffer = CircularBuffer::new(2 * max_input_samples, silence);
        let output_buffer = CircularBuffer::new(4 * max_output_samples, silence);
        proof {
            assert(2 * (max_output_samples * max_pitch_shift_factor) == 2 * max_output_samples
                * max_pitch_shift_factor) by (nonlinear_arith);
            input_buffer.lemma_wf();
            output_buffer.lemma_wf();
            lemma_constant_history(input_buffer@, silence);
            lemma_constant_history(output_buffer@, silence);
        }
        GranularCore { input_buffer, output_buffer, scheduler: GrainScheduler::new(zero_offset) }
    }

    /// Silences both buffers, moves their cursors to the start, zeroes the
    /// scheduler's counters and returns the voices to the start of a grain,
    /// without reallocating.
    pub fn reset(&mut self, silence: T)
        requires
            old(self).wf(),
        ensures
            final(self).wf(),
            final(self).input_buffer@.capacity() == old(self).input_buffer@.capacity(),
            final(self).output_buffer@.capacity() == old(self).output_buffer@.capacity(),
            final(self).input_buffer@.cursor == 0,
            final(self).output_buffer@.cursor == 0,
            forall|d: int| #[trigger] final(self).input_buffer@.delayed(d) == silence,
            forall|d: int| #[trigger] final(self).output_buffer@.delayed(d) == silence,
            final(self).scheduler == old(self).scheduler.reset_spec(),
    {
        self.input_buffer.reset(silence);
        self.output_buffer.reset(silence);
        self.scheduler.reset();
    }

    /// Schedules one output sample against this engine's grain buffer (see
    /// `GrainScheduler::tick`).
    pub fn schedule(
        &mut self,
        output_len: u64,
        stride: i64,
        output_size: S,
        stretch_factor: u8,
        trigger_stretch: bool,
        direction: PlaybackDirection,
    ) -> (r: GrainPlan<S>)
        requires
            old(self).wf(),
        ensures
            final(self).wf(),
            final(self).input_buffer == old(self).input_buffer,
            final(self).output_buffer == old(self).output_buffer,
            ({
                let out = old(self).output_buffer@;
                let out_cursor = (out.cursor + output_len) % (out.capacity() as int);
                let mid = old(self).scheduler.triggered(
                    out_cursor,
                    output_len,
                    stride,
                    output_size,
                    stretch_factor,
                    trigger_stretch,
                );
                let (next, ra, rb) = mid.played(output_len, direction);
                &&& final(self).scheduler == next
                &&& r.first == ra
                &&& r.second == rb
                &&& r.resample_count == if crate::grain::fires(
                    old(self).scheduler.written_samples_ctr,
                    stride,
                ) {
                    output_len
                } else {
                    0
                }
            }),
    {
        self.scheduler.tick(
            &self.output_buffer,
            output_len,
            stride,
            output_size,
            stretch_factor,
            trigger_stretch,
            direction,
        )
    }
}

} // verus!
