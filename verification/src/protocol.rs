//! The wire protocol, as mathematics: which data-line states a flush of a
//! given shadow store emits, in which order, and how a logical bit index
//! maps onto a byte mask.

use vstd::prelude::*;

verus! {

/// The eight data-line states that carry one stored byte: bit positions are
/// emitted least-significant first, so element `b` is bit `b` of `v`.
pub open spec fn byte_bits(v: u8) -> Seq<bool> {
    Seq::new(8, |b: int| (v >> (b as u8)) & 1u8 == 1u8)
}

/// The full data-line stream of one flush of `store`: bytes are emitted in
/// descending index order (the last stored byte first), each one as its
/// `byte_bits`.
pub open spec fn wire_bits(store: Seq<u8>) -> Seq<bool>
    decreases store.len(),
{
    if store.len() == 0 {
        Seq::empty()
    } else {
        byte_bits(store.last()) + wire_bits(store.drop_last())
    }
}

/// The clock-line states of `n` clock pulses: `n` repetitions of high, low.
pub open spec fn clock_pulses(n: nat) -> Seq<bool>
    decreases n,
{
    if n == 0 {
        Seq::empty()
    } else {
        seq![true, false] + clock_pulses((n - 1) as nat)
    }
}

/// The byte mask addressed by logical bit index `bit`: logical bit 0 maps to
/// the byte's most-significant physical bit.
pub open spec fn bit_mask(bit: u8) -> u8
    recommends
        bit < 8,
{
    1u8 << ((7 - bit) as u8)
}

pub proof fn lemma_wire_bits_len(store: Seq<u8>)
    ensures
        wire_bits(store).len() == 8 * store.len(),
    decreases store.len(),
{
    if store.len() > 0 {
        lemma_wire_bits_len(store.drop_last());
    }
}

/// Law: a flush clocks exactly one high/low pulse pair per emitted bit, so
/// a run of `n` pulses is `2 * n` clock-line states.
pub proof fn lemma_clock_pulses_len(n: nat)
    ensures
        clock_pulses(n).len() == 2 * n,
    decreases n,
{
    if n > 0 {
        lemma_clock_pulses_len((n - 1) as nat);
    }
}

/// Concatenating two runs of clock pulses gives the run of the summed length.
pub proof fn lemma_clock_pulses_add(a: nat, b: nat)
    ensures
        clock_pulses(a + b) == clock_pulses(a) + clock_pulses(b),
    decreases a,
{
    if a == 0 {
        assert(clock_pulses(0) + clock_pulses(b) =~= clock_pulses(b));
    } else {
        lemma_clock_pulses_add((a - 1) as nat, b);
        assert(clock_pulses(a + b) =~= clock_pulses(a) + clock_pulses(b));
    }
}

/// Prepending a byte to the store appends its bits to the wire stream:
/// the prepended byte is the last one emitted.
pub proof fn lemma_wire_bits_prepend(x: u8, t: Seq<u8>)
    ensures
        wire_bits(seq![x] + t) == wire_bits(t) + byte_bits(x),
    decreases t.len(),
{
    if t.len() == 0 {
        assert(seq![x] + t =~= seq![x]);
        assert((seq![x]).drop_last() =~= Seq::<u8>::empty());
        assert((seq![x]).last() == x);
        assert(wire_bits(seq![x]) == byte_bits(x) + wire_bits(Seq::<u8>::empty()));
        assert(wire_bits(t) == Seq::<bool>::empty());
        assert(byte_bits(x) + Seq::<bool>::empty() =~= Seq::<bool>::empty() + byte_bits(x));
    } else {
        assert((seq![x] + t).last() == t.last());
        assert((seq![x] + t).drop_last() =~= seq![x] + t.drop_last());
        lemma_wire_bits_prepend(x, t.drop_last());
        assert(byte_bits(t.last()) + (wire_bits(t.drop_last()) + byte_bits(x)) =~= (byte_bits(
            t.last(),
        ) + wire_bits(t.drop_last())) + byte_bits(x));
    }
}

/// Law: the serialized stream of a flush carries each stored byte as exactly
/// eight consecutive data-line states, least-significant bit first, and the
/// bytes appear in descending index order: byte `i` occupies the block that
/// starts `8 * (len - 1 - i)` states into the stream.
pub proof fn lemma_wire_bits_byte(store: Seq<u8>, i: int)
    requires
        0 <= i < store.len(),
    ensures
        wire_bits(store).len() == 8 * store.len(),
        wire_bits(store).subrange(
            8 * (store.len() - 1 - i),
            8 * (store.len() - 1 - i) + 8,
        ) == byte_bits(store[i]),
    decreases store.len(),
{
    lemma_wire_bits_len(store);
    lemma_wire_bits_len(store.drop_last());
    if i == store.len() - 1 {
        assert(wire_bits(store).subrange(0, 8) =~= byte_bits(store.last()));
    } else {
        lemma_wire_bits_byte(store.drop_last(), i);
        let off = 8 * (store.len() - 1 - i);
        assert(wire_bits(store).subrange(off, off + 8) =~= wire_bits(store.drop_last()).subrange(
            off - 8,
            off,
        ));
    }
}

/// Law: setting or clearing the mapped bit of a byte leaves every other bit
/// position of that byte unchanged, and drives exactly the mapped bit.
pub proof fn lemma_bit_isolation(v: u8, bit: u8, other: u8)
    requires
        bit < 8,
        other < 8,
        other != bit,
    ensures
        (v | bit_mask(bit)) & bit_mask(other) == v & bit_mask(other),
        (v & !bit_mask(bit)) & bit_mask(other) == v & bit_mask(other),
        (v | bit_mask(bit)) & bit_mask(bit) == bit_mask(bit),
        (v & !bit_mask(bit)) & bit_mask(bit) == 0,
{
    let s: u8 = (7 - bit) as u8;
    let t: u8 = (7 - other) as u8;
    assert((v | (1u8 << s)) & (1u8 << t) == v & (1u8 << t)) by (bit_vector)
        requires
            s < 8,
            t < 8,
            s != t,
    ;
    assert((v & !(1u8 << s)) & (1u8 << t) == v & (1u8 << t)) by (bit_vector)
        requires
            s < 8,
            t < 8,
            s != t,
    ;
    assert((v | (1u8 << s)) & (1u8 << s) == (1u8 << s)) by (bit_vector)
        requires
            s < 8,
    ;
    assert((v & !(1u8 << s)) & (1u8 << s) == 0) by (bit_vector)
        requires
            s < 8,
    ;
}

} // verus!
