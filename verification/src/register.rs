//! The shift-register device: the shadow store, the three output lines, and
//! the bit-banged flush protocol that serializes the store onto the chain.

use vstd::prelude::*;

use crate::line::OutputLine;
use crate::wrappers::ShiftRegisterError;
use crate::wrappers::ShifterPin;
use crate::wrappers::ShifterValue;
use crate::wrappers::ShifterValueRange;
use crate::protocol::byte_bits;
use crate::protocol::clock_pulses;
use crate::protocol::lemma_clock_pulses_add;
use crate::protocol::lemma_wire_bits_prepend;
use crate::protocol::wire_bits;

verus! {

/// A chain of byte-wide shift registers behind three output lines.
///
/// `shifters` is the shadow image of the chain's intended outputs; a flush
/// pushes it onto the hardware in descending index order, so `shifters[0]`
/// ends up on the stage nearest the control source.
pub struct AdvancedShiftRegister<L: OutputLine> {
    /// Shadow store: the bytes the chain should present.
    shifters: Vec<u8>,
    data_pin: L,
    clk_pin: L,
    latch_pin: L,
}

impl<L: OutputLine> AdvancedShiftRegister<L> {
    /// The shadow store's contents.
    pub closed spec fn store(&self) -> Seq<u8> {
        self.shifters@
    }

    /// The trace of states commanded on the data line.
    pub closed spec fn data_history(&self) -> Seq<bool> {
        self.data_pin.history()
    }

    /// The trace of states commanded on the clock line.
    pub closed spec fn clk_history(&self) -> Seq<bool> {
        self.clk_pin.history()
    }

    /// The trace of states commanded on the latch line.
    pub closed spec fn latch_history(&self) -> Seq<bool> {
        self.latch_pin.history()
    }

    pub fn new(data_pin: L, clk_pin: L, latch_pin: L, count: usize, default_val: u8) -> (r: Self)
        ensures
            r.store().len() == count,
            forall|j: int| 0 <= j < count ==> r.store()[j] == default_val,
            r.data_history() == data_pin.history(),
            r.clk_history() == clk_pin.history(),
            r.latch_history() == latch_pin.history(),
    {
        let mut shifters: Vec<u8> = Vec::new();
        let mut j: usize = 0;
        while j < count
            invariant
                j <= count,
                shifters@.len() == j,
                forall|k: int| 0 <= k < j ==> shifters@[k] == default_val,
            decreases count - j,
        {
            shifters.push(default_val);
            j += 1;
        }
        AdvancedShiftRegister { shifters, data_pin, clk_pin, latch_pin }
    }

    /// Push the stored shadow image onto the physical registers.
    ///
    /// Bytes go out in descending index order; within a byte, bit positions
    /// go out least-significant first, each followed by one clock pulse;
    /// one latch pulse closes the sequence. Line failures are swallowed so
    /// that one bad line never keeps the rest of the image from going out.
    pub fn update_shifters(&mut self)
        ensures
            final(self).store() == old(self).store(),
            flushed_once(*old(self), *final(self)),
    {
        let ghost s = old(self).store();
        let ghost d0 = old(self).data_history();
        let ghost c0 = old(self).clk_history();
        let ghost l0 = old(self).latch_history();
        let n = self.shifters.len();
        proof {
            assert(s.subrange(n as int, n as int) =~= Seq::<u8>::empty());
            assert(d0 + wire_bits(Seq::<u8>::empty()) =~= d0);
            assert(c0 + clock_pulses(0) =~= c0);
        }
        let mut i: usize = n;
        while i > 0
            invariant
                i <= n,
                n == self.store().len(),
                self.store() == s,
                self.data_history() == d0 + wire_bits(s.subrange(i as int, n as int)),
                self.clk_history() == c0 + clock_pulses((8 * (n - i)) as nat),
                self.latch_history() == l0,
            decreases i,
        {
            i -= 1;
            let orig = self.shifters[i];
            let mut val = orig;
            let ghost dh = self.data_history();
            let ghost ch = self.clk_history();
            let mut b: u8 = 0;
            proof {
                assert(dh + byte_bits(orig).take(0) =~= dh);
                assert(ch + clock_pulses(0) =~= ch);
                assert(orig >> 0u8 == orig) by (bit_vector);
            }
            while b < 8
                invariant
                    b <= 8,
                    n == self.store().len(),
                    self.store() == s,
                    b < 8 ==> val == orig >> b,
                    self.data_history() == dh + byte_bits(orig).take(b as int),
                    self.clk_history() == ch + clock_pulses(b as nat),
                    self.latch_history() == l0,
                decreases 8 - b,
            {
                let state = (val & 1) > 0;
                proof {
                    assert(val & 1u8 == 1u8 || val & 1u8 == 0u8) by (bit_vector);
                    assert(state == byte_bits(orig)[b as int]);
                }
                let _ = self.data_pin.set_state(state);
                proof {
                    assert((dh + byte_bits(orig).take(b as int)).push(byte_bits(orig)[b as int])
                        =~= dh + byte_bits(orig).take(b as int + 1));
                }
                val = val >> 1;
                let _ = self.clk_pin.set_high();
                let _ = self.clk_pin.set_low();
                proof {
                    lemma_clock_pulses_add(b as nat, 1);
                    assert(clock_pulses(0) == Seq::<bool>::empty());
                    assert(clock_pulses(1) =~= seq![true, false]);
                    assert((ch + clock_pulses(b as nat)).push(true).push(false) =~= ch
                        + clock_pulses((b + 1) as nat));
                    if b < 7 {
                        let bb = b;
                        assert((orig >> bb) >> 1u8 == orig >> (bb + 1)) by (bit_vector)
                            requires
                                bb < 7,
                        ;
                    }
                }
                b += 1;
            }
            proof {
                assert(byte_bits(orig).take(8) =~= byte_bits(orig));
                assert(s.subrange(i as int, n as int) =~= seq![s[i as int]] + s.subrange(
                    i as int + 1,
                    n as int,
                ));
                lemma_wire_bits_prepend(s[i as int], s.subrange(i as int + 1, n as int));
                assert((d0 + wire_bits(s.subrange(i as int + 1, n as int))) + byte_bits(orig)
                    =~= d0 + wire_bits(s.subrange(i as int, n as int)));
                lemma_clock_pulses_add((8 * (n - i - 1)) as nat, 8);
                assert((c0 + clock_pulses((8 * (n - i - 1)) as nat)) + clock_pulses(8) =~= c0
                    + clock_pulses((8 * (n - i)) as nat));
            }
        }
        proof {
            assert(s.subrange(0, n as int) =~= s);
        }
        let _ = self.latch_pin.set_high();
        let _ = self.latch_pin.set_low();
        proof {
            assert(l0.push(true).push(false) =~= l0 + seq![true, false]);
        }
    }

    /// Read one byte of the shadow store.
    pub fn get_byte(&self, i: usize) -> (r: u8)
        requires
            i < self.store().len(),
        ensures
            r == self.store()[i as int],
    {
        self.shifters[i]
    }

    /// Write one byte of the shadow store, without flushing.
    pub fn set_byte(&mut self, i: usize, value: u8)
        requires
            i < old(self).store().len(),
        ensures
            final(self).store() == old(self).store().update(i as int, value),
            lines_unchanged(*old(self), *final(self)),
    {
        self.shifters[i] = value;
    }

    /// Get a handle on one byte of the shadow store.
    pub fn get_shifter_mut(&self, i: usize) -> (r: Result<ShifterValue, ShiftRegisterError>)
        ensures
            match r {
                Ok(h) => i < self.store().len() && h.index == i,
                Err(e) => i >= self.store().len() && e == ShiftRegisterError::OutOfBounds,
            },
    {
        if i < self.shifters.len() {
            Ok(ShifterValue { index: i })
        } else {
            Err(ShiftRegisterError::OutOfBounds)
        }
    }

    /// Get a handle on one bit of one byte of the shadow store, exposed
    /// through the digital-output-line contract. With `auto_shift` every
    /// bit-level change also pushes the image onto the chain.
    pub fn get_pin_mut(&self, i: usize, bit: u8, auto_shift: bool) -> (r: Result<
        ShifterPin,
        ShiftRegisterError,
    >)
        ensures
            match r {
                Ok(p) => i < self.store().len() && bit < 8 && p.index == i && p.bit == bit
                    && p.auto_update == auto_shift,
                Err(e) => (i >= self.store().len() && e == ShiftRegisterError::OutOfBounds) || (i
                    < self.store().len() && bit >= 8 && e == ShiftRegisterError::BitOutOfRange),
            },
    {
        if i >= self.shifters.len() {
            Err(ShiftRegisterError::OutOfBounds)
        } else if bit >= 8 {
            Err(ShiftRegisterError::BitOutOfRange)
        } else {
            Ok(ShifterPin { index: i, bit, auto_update: auto_shift })
        }
    }

    /// Get a handle on a contiguous range of the shadow store; `end` is
    /// exclusive.
    pub fn get_shifter_range_mut(&self, start: usize, end: usize) -> (r: Result<
        ShifterValueRange,
        ShiftRegisterError,
    >)
        ensures
            match r {
                Ok(h) => start <= end <= self.store().len() && h.start == start && h.end == end,
                Err(e) => !(start <= end <= self.store().len()) && e
                    == ShiftRegisterError::OutOfBounds,
            },
    {
        if start <= end && end <= self.shifters.len() {
            Ok(ShifterValueRange { start, end })
        } else {
            Err(ShiftRegisterError::OutOfBounds)
        }
    }

    /// Read the shadow store.
    pub fn shifters(&self) -> (r: &Vec<u8>)
        ensures
            r@ == self.store(),
    {
        &self.shifters
    }

    /// Borrow the data line, for inspection of its captured trace.
    pub fn data_line(&self) -> (r: &L)
        ensures
            r.history() == self.data_history(),
    {
        &self.data_pin
    }

    /// Borrow the clock line, for inspection of its captured trace.
    pub fn clock_line(&self) -> (r: &L)
        ensures
            r.history() == self.clk_history(),
    {
        &self.clk_pin
    }

    /// Borrow the latch line, for inspection of its captured trace.
    pub fn latch_line(&self) -> (r: &L)
        ensures
            r.history() == self.latch_history(),
    {
        &self.latch_pin
    }
}

/// One full flush ran between `pre` and `post`: the data line carried the
/// wire stream of `post`'s store, the clock line pulsed once per bit, and
/// the latch line pulsed once.
pub open spec fn flushed_once<L: OutputLine>(
    pre: AdvancedShiftRegister<L>,
    post: AdvancedShiftRegister<L>,
) -> bool {
    &&& post.data_history() == pre.data_history() + wire_bits(post.store())
    &&& post.clk_history() == pre.clk_history() + clock_pulses((8 * post.store().len()) as nat)
    &&& post.latch_history() == pre.latch_history() + seq![true, false]
}

/// Law: a flush that ran after one byte of the store was overwritten with
/// `v` grew the data-line trace by one full wire stream, and within that
/// stream byte `i`'s block of eight states carries exactly the bits of `v`,
/// least-significant first.
pub proof fn lemma_flush_emits_written_byte<L: OutputLine>(
    pre: AdvancedShiftRegister<L>,
    post: AdvancedShiftRegister<L>,
    i: int,
    v: u8,
)
    requires
        0 <= i < pre.store().len(),
        post.store() == pre.store().update(i, v),
        flushed_once(pre, post),
    ensures
        post.data_history().len() == pre.data_history().len() + 8 * pre.store().len(),
        post.data_history().skip(pre.data_history().len() as int).subrange(
            8 * (pre.store().len() - 1 - i),
            8 * (pre.store().len() - 1 - i) + 8,
        ) == byte_bits(v),
{
    crate::protocol::lemma_wire_bits_len(post.store());
    crate::protocol::lemma_wire_bits_byte(post.store(), i);
    assert((pre.data_history() + wire_bits(post.store())).skip(
        pre.data_history().len() as int,
    ) =~= wire_bits(post.store()));
}

/// No line was touched between `pre` and `post`.
pub open spec fn lines_unchanged<L: OutputLine>(
    pre: AdvancedShiftRegister<L>,
    post: AdvancedShiftRegister<L>,
) -> bool {
    &&& post.data_history() == pre.data_history()
    &&& post.clk_history() == pre.clk_history()
    &&& post.latch_history() == pre.latch_history()
}

} // verus!
