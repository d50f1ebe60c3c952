//! A fixed-capacity circular history of samples, with a power-of-two capacity
//! and a write cursor that wraps by bit mask.
use vstd::arithmetic::div_mod::{
    lemma_add_mod_noop_right, lemma_mod_add_multiples_vanish, lemma_mod_equivalence,
    lemma_mod_multiples_vanish, lemma_small_mod, lemma_sub_mod_noop_right,
};
use vstd::arithmetic::power2::{lemma2_to64, lemma_pow2_unfold, pow2};
use vstd::bits::{lemma_usize_low_bits_mask_is_mod, low_bits_mask};
use vstd::prelude::*;

verus! {

/// The abstract state of a ring: its cells and the index the next write goes to.
pub struct RingState<T> {
    pub cells: Seq<T>,
    pub cursor: nat,
}

impl<T> RingState<T> {
    pub open spec fn capacity(self) -> nat {
        self.cells.len()
    }

    pub open spec fn wf(self) -> bool {
        &&& self.cells.len() > 0
        &&& self.cursor < self.cells.len()
    }

    /// The cell that lies `delay` steps before the next write position.
    pub open spec fn slot(self, delay: int) -> int {
        (self.cursor - delay) % (self.cells.len() as int)
    }

    /// The sample written `delay` steps before the next write position.
    pub open spec fn delayed(self, delay: int) -> T {
        self.cells[self.slot(delay)]
    }

    /// The state after storing `x` at the cursor and advancing it.
    pub open spec fn write(self, x: T) -> RingState<T> {
        RingState {
            cells: self.cells.update(self.cursor as int, x),
            cursor: ((self.cursor + 1) % self.cells.len()) as nat,
        }
    }

    /// The state after writing every element of `xs`, first to last.
    pub open spec fn write_all(self, xs: Seq<T>) -> RingState<T>
        decreases xs.len(),
    {
        if xs.len() == 0 {
            self
        } else {
            self.write_all(xs.drop_last()).write(xs.last())
        }
    }
}

/// `n` is a power of two of at most 2^30.
pub open spec fn is_pow2(n: nat) -> bool {
    exists|k: nat| k < 31 && pow2(k) == n
}

/// The least power of two that is at least `n`.
pub open spec fn is_next_pow2(n: nat, r: nat) -> bool {
    &&& is_pow2(r)
    &&& n <= r
    &&& (r == 1 || r / 2 < n)
}

/// A circular buffer whose capacity is a power of two.
pub struct CircularBuffer<T> {
    buffer: Vec<T>,
    write_index: usize,
    wrap_mask: usize,
    log2_len: Ghost<nat>,
}

impl<T> View for CircularBuffer<T> {
    type V = RingState<T>;

    closed spec fn view(&self) -> RingState<T> {
        RingState { cells: self.buffer@, cursor: self.write_index as nat }
    }
}

/// The least power of two not below `length` (one for zero).
pub fn next_power_of_two(length: usize) -> (r: usize)
    requires
        length <= 0x4000_0000,
    ensures
        is_next_pow2(length as nat, r as nat),
{
    let mut r: usize = 1;
    let ghost mut k: nat = 0;
    proof {
        lemma2_to64();
    }
    while r < length
        invariant
            length <= 0x4000_0000,
            r == pow2(k),
            k <= 30,
            r >= 1,
            r == 1 || r / 2 < length,
        decreases 30 - k,
    {
        proof {
            lemma_pow2_unfold(k + 1);
            if k == 30 {
                lemma2_to64();
                assert(false);
            }
        }
        r = r * 2;
        proof {
            k = k + 1;
        }
    }
    proof {
        assert(pow2(k) == r);
    }
    r
}

impl<T: Copy> CircularBuffer<T> {
    /// The capacity is a power of two, the mask one less, and the cursor
    /// inside the buffer.
    pub closed spec fn wf(&self) -> bool {
        &&& self.log2_len@ < 31
        &&& self.buffer@.len() == pow2(self.log2_len@)
        &&& self.wrap_mask == low_bits_mask(self.log2_len@)
        &&& self.write_index < self.buffer@.len()
    }

    /// What well-formedness gives a caller: a power-of-two capacity of at
    /// most 2^30 cells and a cursor inside it.
    pub proof fn lemma_wf(&self)
        requires
            self.wf(),
        ensures
            self@.wf(),
            is_pow2(self@.capacity()),
            self@.capacity() <= 0x4000_0000,
    {
        lemma2_to64();
        vstd::arithmetic::power2::lemma_pow2_pos(self.log2_len@);
        if self.log2_len@ < 30 {
            vstd::arithmetic::power2::lemma_pow2_strictly_increases(self.log2_len@, 30);
        }
    }

    proof fn lemma_mask(&self)
        requires
            self.wf(),
        ensures
            self@.wf(),
            self@.capacity() <= 0x4000_0000,
            self.wrap_mask + 1 == self@.capacity(),
            forall|x: usize| #[trigger] (x & self.wrap_mask) == x % (self@.capacity() as usize),
    {
        self.lemma_wf();
        assert forall|x: usize| #[trigger] (x & self.wrap_mask) == x % (self@.capacity() as usize) by {
            lemma_usize_low_bits_mask_is_mod(x, self.log2_len@);
        }
    }

    /// A buffer of the least power-of-two capacity not below `length`, every
    /// cell holding `fill`.
    pub fn new(length: usize, fill: T) -> (r: CircularBuffer<T>)
        requires
            length <= 0x4000_0000,
        ensures
            r.wf(),
            is_next_pow2(length as nat, r@.capacity()),
            r@.cursor == 0,
            forall|i: int| 0 <= i < r@.capacity() ==> r@.cells[i] == fill,
    {
        let len = next_power_of_two(length);
        let ghost k = choose|k: nat| k < 31 && pow2(k) == len;
        let mut buffer: Vec<T> = Vec::with_capacity(len);
        while buffer.len() < len
            invariant
                buffer@.len() <= len,
                forall|i: int| 0 <= i < buffer@.len() ==> buffer@[i] == fill,
            decreases len - buffer@.len(),
        {
            buffer.push(fill);
        }
        proof {
            vstd::arithmetic::power2::lemma_pow2_pos(k);
        }
        CircularBuffer { buffer, write_index: 0, wrap_mask: len - 1, log2_len: Ghost(k) }
    }

    /// The cell index the next write goes to.
    pub fn write_index(&self) -> (r: usize)
        ensures
            r == self@.cursor,
    {
        self.write_index
    }

    /// The number of cells.
    pub fn capacity(&self) -> (r: usize)
        ensures
            r == self@.capacity(),
    {
        self.buffer.len()
    }

    proof fn lemma_slot_neighbours(&self, delay: int)
        requires
            self.wf(),
        ensures
            (self@.slot(delay) + 1) % (self@.capacity() as int) == self@.slot(delay - 1),
            (self@.slot(delay) + 2 * self@.capacity() - 1) % (self@.capacity() as int) == self@.slot(delay + 1),
            (self@.slot(delay) + 2 * self@.capacity() - 2) % (self@.capacity() as int) == self@.slot(delay + 2),
    {
        self.lemma_wf();
        let l = self@.capacity() as int;
        let a = self@.cursor - delay;
        lemma_add_mod_noop_right(1, a, l);
        lemma_add_mod_noop_right(2 * l - 1, a, l);
        lemma_add_mod_noop_right(2 * l - 2, a, l);
        lemma_mod_multiples_vanish(2, a - 1, l);
        lemma_mod_multiples_vanish(2, a - 2, l);
    }

    /// The index of the cell `delay` steps before the cursor.
    fn slot_index(&self, delay: usize) -> (r: usize)
        requires
            self.wf(),
        ensures
            r as int == self@.slot(delay as int),
            r < self@.capacity(),
    {
        proof {
            self.lemma_mask();
        }
        let len = self.buffer.len();
        let back = delay & self.wrap_mask;
        let r = (self.write_index + len - back) & self.wrap_mask;
        proof {
            let l = len as int;
            lemma_mod_add_multiples_vanish(self.write_index - back, l);
            lemma_sub_mod_noop_right(self.write_index as int, delay as int, l);
        }
        r
    }

    /// The sample written `delay_in_samples` steps before the next write
    /// position (the most recent write is one step back). Delays are taken
    /// modulo the capacity; past what was written, the cells hold stale data.
    pub fn read(&self, delay_in_samples: usize) -> (r: T)
        requires
            self.wf(),
        ensures
            r == self@.delayed(delay_in_samples as int),
    {
        let i = self.slot_index(delay_in_samples);
        self.buffer[i]
    }

    /// The four samples around `delay_in_samples` that a 4-point
    /// interpolation needs: one step more recent, the sample itself, and one
    /// and two steps older.
    pub fn read_taps(&self, delay_in_samples: usize) -> (r: (T, T, T, T))
        requires
            self.wf(),
        ensures
            r.0 == self@.delayed(delay_in_samples - 1),
            r.1 == self@.delayed(delay_in_samples as int),
            r.2 == self@.delayed(delay_in_samples + 1),
            r.3 == self@.delayed(delay_in_samples + 2),
    {
        proof {
            self.lemma_mask();
            self.lemma_slot_neighbours(delay_in_samples as int);
        }
        let len = self.buffer.len();
        let i = self.slot_index(delay_in_samples);
        let i0 = (i + 1) & self.wrap_mask;
        let i2 = (i + 2 * len - 1) & self.wrap_mask;
        let i3 = (i + 2 * len - 2) & self.wrap_mask;
        (self.buffer[i0], self.buffer[i], self.buffer[i2], self.buffer[i3])
    }

    /// Fills every cell with `fill` and moves the cursor back to the start.
    pub fn reset(&mut self, fill: T)
        requires
            old(self).wf(),
        ensures
            final(self).wf(),
            final(self)@.cursor == 0,
            final(self)@.capacity() == old(self)@.capacity(),
            forall|i: int| 0 <= i < final(self)@.capacity() ==> final(self)@.cells[i] == fill,
            forall|d: int| #[trigger] final(self)@.delayed(d) == fill,
    {
        let mut i: usize = 0;
        while i < self.buffer.len()
            invariant
                self.wf(),
                self.buffer@.len() == old(self).buffer@.len(),
                self.log2_len == old(self).log2_len,
                0 <= i <= self.buffer@.len(),
                forall|j: int| 0 <= j < i ==> self.buffer@[j] == fill,
            decreases self.buffer@.len() - i,
        {
            self.buffer.set(i, fill);
            i = i + 1;
        }
        self.write_index = 0;
        proof {
            self.lemma_wf();
            lemma_constant_history(self@, fill);
        }
    }

    /// Stores `input` at the cursor and advances the cursor, wrapping at the end.
    pub fn write(&mut self, input: T)
        requires
            old(self).wf(),
        ensures
            final(self).wf(),
            final(self)@ == old(self)@.write(input),
    {
        proof {
            self.lemma_mask();
        }
        self.buffer.set(self.write_index, input);
        self.write_index = (self.write_index + 1) & self.wrap_mask;
    }
}

/// A ring whose cells all hold `k` reads `k` at every delay, so the four
/// taps of an interpolating read are then all `k`.
pub proof fn lemma_constant_history<T>(r: RingState<T>, k: T)
    requires
        r.wf(),
        forall|i: int| 0 <= i < r.capacity() ==> r.cells[i] == k,
    ensures
        forall|d: int| #[trigger] r.delayed(d) == k,
{
    assert forall|d: int| #[trigger] r.delayed(d) == k by {
        vstd::arithmetic::div_mod::lemma_mod_bound(r.cursor - d, r.capacity() as int);
    }
}

/// Writing preserves well-formedness and capacity.
pub proof fn lemma_write_all_wf<T>(r: RingState<T>, xs: Seq<T>)
    requires
        r.wf(),
    ensures
        r.write_all(xs).wf(),
        r.write_all(xs).capacity() == r.capacity(),
    decreases xs.len(),
{
    if xs.len() > 0 {
        lemma_write_all_wf(r, xs.drop_last());
    }
}

/// Read-after-write: once `xs` (no longer than the ring) has been written,
/// reading `d` steps back, for `d` from 1 to the number written, returns the
/// written values most recent first.
pub proof fn lemma_reads_return_recent_writes<T>(r: RingState<T>, xs: Seq<T>)
    requires
        r.wf(),
        xs.len() <= r.capacity(),
    ensures
        forall|d: int| 1 <= d <= xs.len() ==> #[trigger] r.write_all(xs).delayed(d) == xs[xs.len() - d],
    decreases xs.len(),
{
    if xs.len() > 0 {
        let n = xs.len() as int;
        let prev = r.write_all(xs.drop_last());
        let cur = r.write_all(xs);
        let l = r.capacity() as int;
        lemma_reads_return_recent_writes(r, xs.drop_last());
        lemma_write_all_wf(r, xs.drop_last());
        assert(cur == prev.write(xs.last()));
        assert forall|d: int| 1 <= d <= n implies #[trigger] cur.delayed(d) == xs[n - d] by {
            lemma_add_mod_noop_right(-d, prev.cursor + 1 as int, l);
            assert(cur.slot(d) == prev.slot(d - 1));
            if d == 1 {
                lemma_small_mod(prev.cursor, l as nat);
                assert(prev.slot(0) == prev.cursor);
            } else {
                if prev.slot(d - 1) == prev.cursor {
                    lemma_small_mod(prev.cursor, l as nat);
                    lemma_mod_equivalence(prev.cursor - (d - 1), prev.cursor as int, l);
                    lemma_small_mod((d - 1) as nat, l as nat);
                    lemma_mod_equivalence(0, d - 1, l);
                }
                assert(cur.delayed(d) == prev.delayed(d - 1));
                assert(xs.drop_last()[n - 1 - (d - 1)] == xs[n - d]);
            }
        }
    }
}

} // verus!
