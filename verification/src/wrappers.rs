//! Caller-facing handles into a device's shadow store: a single-byte handle,
//! a byte-range handle, a single-bit handle with the output-line contract,
//! and a deferred-update guard that batches mutations before one flush.
//!
//! A handle carries only the coordinates of the bytes it addresses; every
//! mutating operation takes the owning device and, directly or on guard
//! release, pushes the fresh image onto the chain.

use vstd::prelude::*;

use crate::line::LineError;
use crate::line::OutputLine;
use crate::protocol::bit_mask;
use crate::register::flushed_once;
use crate::register::lines_unchanged;
use crate::register::AdvancedShiftRegister;

verus! {

/// The errors the handle subsystem reports at construction or bulk-write
/// time.
#[derive(Clone, Copy, Debug, PartialEq, Eq, Structural)]
pub enum ShiftRegisterError {
    /// A byte index or byte range lies outside the store.
    OutOfBounds,
    /// A logical bit index lies outside the byte's eight positions.
    BitOutOfRange,
    /// A bulk write's data length differs from the range's length.
    LengthMismatch,
}

/// Handle on one byte of a device's shadow store.
#[derive(Clone, Copy, Debug, PartialEq, Eq, Structural)]
pub struct ShifterValue {
    /// Index of the aliased byte.
    pub index: usize,
}

impl ShifterValue {
    /// Overwrite the aliased byte, then push the fresh image onto the chain.
    pub fn set_value<L: OutputLine>(&self, dev: &mut AdvancedShiftRegister<L>, value: u8)
        requires
            self.index < old(dev).store().len(),
        ensures
            final(dev).store() == old(dev).store().update(self.index as int, value),
            flushed_once(*old(dev), *final(dev)),
    {
        dev.set_byte(self.index, value);
        dev.update_shifters();
    }

    /// Take a deferred-update guard staging the aliased byte: mutate the
    /// staged copy freely, then `release` writes it back and flushes once.
    pub fn value<L: OutputLine>(&self, dev: &AdvancedShiftRegister<L>) -> (r: ShifterGuard)
        requires
            self.index < dev.store().len(),
        ensures
            r.start == self.index,
            r.data@ == seq![dev.store()[self.index as int]],
    {
        let mut data: Vec<u8> = Vec::new();
        data.push(dev.get_byte(self.index));
        proof {
            assert(data@ =~= seq![dev.store()[self.index as int]]);
        }
        ShifterGuard { start: self.index, data }
    }

    /// Push the device's stored image onto the chain, without mutating.
    pub fn update_shifters<L: OutputLine>(&self, dev: &mut AdvancedShiftRegister<L>)
        ensures
            final(dev).store() == old(dev).store(),
            flushed_once(*old(dev), *final(dev)),
    {
        dev.update_shifters();
    }

    /// Get a handle on one bit of the aliased byte, exposed through the
    /// digital-output-line contract.
    pub fn get_pin_mut(&self, bit: u8, auto_shift: bool) -> (r: Result<
        ShifterPin,
        ShiftRegisterError,
    >)
        ensures
            match r {
                Ok(p) => bit < 8 && p.index == self.index && p.bit == bit && p.auto_update
                    == auto_shift,
                Err(e) => bit >= 8 && e == ShiftRegisterError::BitOutOfRange,
            },
    {
        if bit >= 8 {
            Err(ShiftRegisterError::BitOutOfRange)
        } else {
            Ok(ShifterPin { index: self.index, bit, auto_update: auto_shift })
        }
    }
}

/// Handle on one bit of one byte of a device's shadow store. It satisfies
/// the same contract shape as a plain digital output line: driving it high
/// or low sets or clears the mapped bit `1 << (7 - bit)` and, with
/// `auto_update`, pushes the fresh image onto the chain at once.
#[derive(Clone, Copy, Debug, PartialEq, Eq, Structural)]
pub struct ShifterPin {
    /// Index of the aliased byte.
    pub index: usize,
    /// Logical bit index; logical bit 0 maps to the byte's most-significant
    /// physical bit.
    pub bit: u8,
    /// Whether every bit-level change also flushes at once.
    pub auto_update: bool,
}

impl ShifterPin {
    /// Set the mapped bit of the aliased byte; every other bit keeps its
    /// state. Flushes at once exactly when `auto_update` is set.
    pub fn set_high<L: OutputLine>(&self, dev: &mut AdvancedShiftRegister<L>) -> (r: Result<
        (),
        LineError,
    >)
        requires
            self.index < old(dev).store().len(),
            self.bit < 8,
        ensures
            r is Ok,
            final(dev).store() == old(dev).store().update(
                self.index as int,
                old(dev).store()[self.index as int] | bit_mask(self.bit),
            ),
            self.auto_update ==> flushed_once(*old(dev), *final(dev)),
            !self.auto_update ==> lines_unchanged(*old(dev), *final(dev)),
    {
        let cur = dev.get_byte(self.index);
        let mask: u8 = 1u8 << (7 - self.bit);
        dev.set_byte(self.index, cur | mask);
        if self.auto_update {
            dev.update_shifters();
        }
        Ok(())
    }

    /// Clear the mapped bit of the aliased byte; every other bit keeps its
    /// state. Flushes at once exactly when `auto_update` is set.
    pub fn set_low<L: OutputLine>(&self, dev: &mut AdvancedShiftRegister<L>) -> (r: Result<
        (),
        LineError,
    >)
        requires
            self.index < old(dev).store().len(),
            self.bit < 8,
        ensures
            r is Ok,
            final(dev).store() == old(dev).store().update(
                self.index as int,
                old(dev).store()[self.index as int] & !bit_mask(self.bit),
            ),
            self.auto_update ==> flushed_once(*old(dev), *final(dev)),
            !self.auto_update ==> lines_unchanged(*old(dev), *final(dev)),
    {
        let cur = dev.get_byte(self.index);
        let mask: u8 = 1u8 << (7 - self.bit);
        dev.set_byte(self.index, cur & !mask);
        if self.auto_update {
            dev.update_shifters();
        }
        Ok(())
    }
}

/// Handle on a contiguous range of bytes of a device's shadow store;
/// `end` is exclusive.
#[derive(Clone, Copy, Debug, PartialEq, Eq, Structural)]
pub struct ShifterValueRange {
    /// Index of the first aliased byte.
    pub start: usize,
    /// One past the last aliased byte.
    pub end: usize,
}

impl ShifterValueRange {
    /// Overwrite the whole aliased range, then push the fresh image onto
    /// the chain. A supplied length that differs from the range's length is
    /// rejected without touching a single byte of the store.
    pub fn set_data<L: OutputLine>(
        &self,
        dev: &mut AdvancedShiftRegister<L>,
        data: &Vec<u8>,
    ) -> (r: Result<(), ShiftRegisterError>)
        requires
            self.start <= self.end,
            self.end <= old(dev).store().len(),
        ensures
            r is Ok <==> data@.len() == self.end - self.start,
            r is Err ==> *final(dev) == *old(dev) && r == Err::<(), ShiftRegisterError>(
                ShiftRegisterError::LengthMismatch,
            ),
            r is Ok ==> final(dev).store().len() == old(dev).store().len(),
            r is Ok ==> forall|j: int|
                self.start <= j < self.end ==> final(dev).store()[j] == data@[j - self.start],
            r is Ok ==> forall|j: int|
                0 <= j < old(dev).store().len() && !(self.start <= j < self.end)
                    ==> final(dev).store()[j] == old(dev).store()[j],
            r is Ok ==> flushed_once(*old(dev), *final(dev)),
    {
        if data.len() != self.end - self.start {
            return Err(ShiftRegisterError::LengthMismatch);
        }
        let mut k: usize = 0;
        while k < data.len()
            invariant
                k <= data@.len(),
                data@.len() == self.end - self.start,
                self.end <= dev.store().len(),
                dev.store().len() == old(dev).store().len(),
                forall|j: int|
                    self.start <= j < self.start + k ==> dev.store()[j] == data@[j - self.start],
                forall|j: int|
                    0 <= j < dev.store().len() && !(self.start <= j < self.start + k)
                        ==> dev.store()[j] == old(dev).store()[j],
                lines_unchanged(*old(dev), *dev),
            decreases data@.len() - k,
        {
            dev.set_byte(self.start + k, data[k]);
            k += 1;
        }
        dev.update_shifters();
        Ok(())
    }

    /// Take a deferred-update guard staging the whole aliased range: mutate
    /// the staged copy freely, then `release` writes it back and flushes
    /// once.
    pub fn data<L: OutputLine>(&self, dev: &AdvancedShiftRegister<L>) -> (r: ShifterGuard)
        requires
            self.start <= self.end,
            self.end <= dev.store().len(),
        ensures
            r.start == self.start,
            r.data@ == dev.store().subrange(self.start as int, self.end as int),
    {
        let mut data: Vec<u8> = Vec::new();
        let mut k: usize = 0;
        while k < self.end - self.start
            invariant
                self.start <= self.end <= dev.store().len(),
                k <= self.end - self.start,
                data@.len() == k,
                forall|j: int| 0 <= j < k ==> data@[j] == dev.store()[self.start + j],
            decreases self.end - self.start - k,
        {
            data.push(dev.get_byte(self.start + k));
            k += 1;
        }
        proof {
            assert(data@ =~= dev.store().subrange(self.start as int, self.end as int));
        }
        ShifterGuard { start: self.start, data }
    }

    /// Overwrite one byte within the aliased range, then push the fresh
    /// image onto the chain.
    pub fn set_value<L: OutputLine>(
        &self,
        dev: &mut AdvancedShiftRegister<L>,
        index: usize,
        value: u8,
    )
        requires
            self.start <= self.end,
            self.end <= old(dev).store().len(),
            index < self.end - self.start,
        ensures
            final(dev).store() == old(dev).store().update((self.start + index) as int, value),
            flushed_once(*old(dev), *final(dev)),
    {
        dev.set_byte(self.start + index, value);
        dev.update_shifters();
    }

    /// Take a deferred-update guard staging one byte within the aliased
    /// range.
    pub fn value<L: OutputLine>(&self, dev: &AdvancedShiftRegister<L>, index: usize) -> (r:
        ShifterGuard)
        requires
            self.start <= self.end,
            self.end <= dev.store().len(),
            index < self.end - self.start,
        ensures
            r.start == self.start + index,
            r.data@ == seq![dev.store()[self.start + index]],
    {
        let mut data: Vec<u8> = Vec::new();
        data.push(dev.get_byte(self.start + index));
        proof {
            assert(data@ =~= seq![dev.store()[self.start + index]]);
        }
        ShifterGuard { start: self.start + index, data }
    }

    /// Push the device's stored image onto the chain, without mutating.
    pub fn update_shifters<L: OutputLine>(&self, dev: &mut AdvancedShiftRegister<L>)
        ensures
            final(dev).store() == old(dev).store(),
            flushed_once(*old(dev), *final(dev)),
    {
        dev.update_shifters();
    }
}

/// A deferred-update guard: a staged copy of the bytes a handle aliases.
/// Reads and writes act on the staged copy; `release` writes the copy back
/// into the store and triggers exactly one flush, however many mutations
/// happened in between. The guard is consumed by `release`, so the
/// active-to-released transition is one-way.
pub struct ShifterGuard {
    /// Index in the store of the first staged byte.
    pub start: usize,
    /// The staged bytes.
    pub data: Vec<u8>,
}

impl ShifterGuard {
    /// Number of staged bytes.
    pub fn len(&self) -> (r: usize)
        ensures
            r == self.data@.len(),
    {
        self.data.len()
    }

    /// Read one staged byte.
    pub fn get(&self, offset: usize) -> (r: u8)
        requires
            offset < self.data@.len(),
        ensures
            r == self.data@[offset as int],
    {
        self.data[offset]
    }

    /// Overwrite one staged byte; the device is untouched until `release`.
    pub fn set(&mut self, offset: usize, value: u8)
        requires
            offset < old(self).data@.len(),
        ensures
            final(self).start == old(self).start,
            final(self).data@ == old(self).data@.update(offset as int, value),
    {
        self.data[offset] = value;
    }

    /// Write the staged bytes back into the store and push the fresh image
    /// onto the chain, exactly once.
    pub fn release<L: OutputLine>(self, dev: &mut AdvancedShiftRegister<L>)
        requires
            self.start + self.data@.len() <= old(dev).store().len(),
        ensures
            final(dev).store().len() == old(dev).store().len(),
            forall|j: int|
                self.start <= j < self.start + self.data@.len() ==> final(dev).store()[j]
                    == self.data@[j - self.start],
            forall|j: int|
                0 <= j < old(dev).store().len() && !(self.start <= j < self.start
                    + self.data@.len()) ==> final(dev).store()[j] == old(dev).store()[j],
            flushed_once(*old(dev), *final(dev)),
    {
        let n = dev.shifters().len();
        let mut k: usize = 0;
        while k < self.data.len()
            invariant
                k <= self.data@.len(),
                self.start + self.data@.len() <= n,
                self.start + self.data@.len() <= dev.store().len(),
                dev.store().len() == old(dev).store().len(),
                forall|j: int|
                    self.start <= j < self.start + k ==> dev.store()[j] == self.data@[j
                        - self.start],
                forall|j: int|
                    0 <= j < dev.store().len() && !(self.start <= j < self.start + k)
                        ==> dev.store()[j] == old(dev).store()[j],
                lines_unchanged(*old(dev), *dev),
            decreases self.data@.len() - k,
        {
            let v = self.data[k];
            dev.set_byte(self.start + k, v);
            k += 1;
        }
        dev.update_shifters();
    }
}

} // verus!
