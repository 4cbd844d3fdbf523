use advanced_shift_register::line::OutputLine;
use advanced_shift_register::line::RecordingLine;
use advanced_shift_register::register::AdvancedShiftRegister;
use advanced_shift_register::wrappers::ShiftRegisterError;

fn device(count: usize, fill: u8) -> AdvancedShiftRegister<RecordingLine> {
    AdvancedShiftRegister::new(
        RecordingLine::new(),
        RecordingLine::new(),
        RecordingLine::new(),
        count,
        fill,
    )
}

/// The eight data-line states that carry one byte, least-significant bit
/// first.
fn bits_lsb_first(v: u8) -> Vec<bool> {
    (0..8).map(|b| (v >> b) & 1 == 1).collect()
}

/// The data-line states of one flush of `store`: bytes in descending index
/// order, each least-significant bit first.
fn wire_stream(store: &[u8]) -> Vec<bool> {
    let mut out = Vec::new();
    for &v in store.iter().rev() {
        out.extend(bits_lsb_first(v));
    }
    out
}

/// `n` clock pulses: high then low, `n` times.
fn pulses(n: usize) -> Vec<bool> {
    let mut out = Vec::new();
    for _ in 0..n {
        out.push(true);
        out.push(false);
    }
    out
}

#[test]
fn new_fills_store() {
    let dev = device(5, 0xAB);
    assert_eq!(dev.shifters().as_slice(), &[0xAB; 5]);
    assert!(dev.data_line().transitions().is_empty());
    assert!(dev.clock_line().transitions().is_empty());
    assert!(dev.latch_line().transitions().is_empty());

    let empty = device(0, 0x42);
    assert!(empty.shifters().is_empty());
}

#[test]
fn set_value_serializes_byte_lsb_first() {
    let mut dev = device(1, 0x00);
    let h = dev.get_shifter_mut(0).unwrap();
    h.set_value(&mut dev, 0x5A);
    assert_eq!(dev.shifters().as_slice(), &[0x5A]);
    assert_eq!(dev.data_line().transitions(), &bits_lsb_first(0x5A));
    assert_eq!(dev.clock_line().transitions(), &pulses(8));
    assert_eq!(dev.latch_line().transitions(), &vec![true, false]);
}

#[test]
fn flush_walks_registers_in_descending_order() {
    let mut dev = device(2, 0x00);
    let h = dev.get_shifter_mut(0).unwrap();
    h.set_value(&mut dev, 0xFF);
    // Byte 1 (still 0x00) goes out first, byte 0 (0xFF) second.
    let mut expected = bits_lsb_first(0x00);
    expected.extend(bits_lsb_first(0xFF));
    assert_eq!(dev.data_line().transitions(), &expected);
    assert_eq!(dev.clock_line().transitions(), &pulses(16));
    assert_eq!(dev.latch_line().transitions(), &vec![true, false]);
}

#[test]
fn guard_round_trip_flushes_once() {
    let mut dev = device(2, 0x10);
    let h = dev.get_shifter_mut(1).unwrap();
    let mut g = h.value(&dev);
    assert_eq!(g.len(), 1);
    assert_eq!(g.get(0), 0x10);
    // Many intermediate mutations through the guard: no line is touched.
    g.set(0, 0x01);
    g.set(0, 0x02);
    g.set(0, 0xEE);
    assert!(dev.latch_line().transitions().is_empty());
    assert_eq!(dev.shifters().as_slice(), &[0x10, 0x10]);
    // Release writes the final contents back and flushes exactly once.
    g.release(&mut dev);
    assert_eq!(dev.shifters().as_slice(), &[0x10, 0xEE]);
    assert_eq!(dev.latch_line().transitions(), &vec![true, false]);
    assert_eq!(dev.data_line().transitions(), &wire_stream(&[0x10, 0xEE]));
    assert_eq!(dev.clock_line().transitions(), &pulses(16));
}

#[test]
fn range_write_length_mismatch_is_atomic() {
    let mut dev = device(4, 0x77);
    let r = dev.get_shifter_range_mut(1, 3).unwrap();
    let res = r.set_data(&mut dev, &vec![1, 2, 3]);
    assert_eq!(res, Err(ShiftRegisterError::LengthMismatch));
    // Not a single byte changed and not a single line was touched.
    assert_eq!(dev.shifters().as_slice(), &[0x77; 4]);
    assert!(dev.data_line().transitions().is_empty());
    assert!(dev.clock_line().transitions().is_empty());
    assert!(dev.latch_line().transitions().is_empty());
}

#[test]
fn range_write_with_matching_length() {
    let mut dev = device(4, 0x00);
    let r = dev.get_shifter_range_mut(1, 3).unwrap();
    let res = r.set_data(&mut dev, &vec![0xAA, 0xBB]);
    assert_eq!(res, Ok(()));
    assert_eq!(dev.shifters().as_slice(), &[0x00, 0xAA, 0xBB, 0x00]);
    assert_eq!(
        dev.data_line().transitions(),
        &wire_stream(&[0x00, 0xAA, 0xBB, 0x00])
    );
    assert_eq!(dev.clock_line().transitions(), &pulses(32));
    assert_eq!(dev.latch_line().transitions(), &vec![true, false]);
}

#[test]
fn range_set_value_and_guards() {
    let mut dev = device(3, 0x00);
    let r = dev.get_shifter_range_mut(1, 3).unwrap();
    r.set_value(&mut dev, 0, 0x11);
    assert_eq!(dev.shifters().as_slice(), &[0x00, 0x11, 0x00]);
    assert_eq!(dev.latch_line().transitions(), &vec![true, false]);

    let g = r.data(&dev);
    assert_eq!(g.len(), 2);
    assert_eq!(g.get(0), 0x11);
    assert_eq!(g.get(1), 0x00);
    let mut g = g;
    g.set(1, 0x22);
    g.release(&mut dev);
    assert_eq!(dev.shifters().as_slice(), &[0x00, 0x11, 0x22]);
    assert_eq!(dev.latch_line().transitions(), &vec![true, false, true, false]);

    let mut single = r.value(&dev, 0);
    assert_eq!(single.get(0), 0x11);
    single.set(0, 0x33);
    single.release(&mut dev);
    assert_eq!(dev.shifters().as_slice(), &[0x00, 0x33, 0x22]);
}

#[test]
fn pin_touches_only_its_mapped_bit() {
    let mut dev = device(1, 0b0101_0101);
    let p = dev.get_pin_mut(0, 2, false).unwrap();
    let _ = p.set_high(&mut dev);
    // Logical bit 2 maps to mask 1 << (7 - 2) = 0b0010_0000.
    assert_eq!(dev.shifters().as_slice(), &[0b0111_0101]);
    let _ = p.set_low(&mut dev);
    assert_eq!(dev.shifters().as_slice(), &[0b0101_0101]);
    let q = dev.get_pin_mut(0, 7, false).unwrap();
    let _ = q.set_low(&mut dev);
    assert_eq!(dev.shifters().as_slice(), &[0b0101_0100]);
    // No auto update: the lines were never driven.
    assert!(dev.latch_line().transitions().is_empty());
}

#[test]
fn three_byte_scenario() {
    let mut dev = device(3, 0x00);
    let h = dev.get_shifter_mut(2).unwrap();
    h.set_value(&mut dev, 0b1010_0000);
    // Descending register order: byte 2 first, bit 0 (LSB) first within a
    // byte, so 0b1010_0000 goes out as low,low,low,low,low,high,low,high.
    let mut expected = vec![false, false, false, false, false, true, false, true];
    expected.extend(bits_lsb_first(0x00));
    expected.extend(bits_lsb_first(0x00));
    assert_eq!(dev.data_line().transitions(), &expected);
    assert_eq!(dev.clock_line().transitions(), &pulses(24));
    assert_eq!(dev.latch_line().transitions(), &vec![true, false]);
}

#[test]
fn bit_pin_scenario_with_and_without_auto_update() {
    let mut dev = device(1, 0xFF);
    let p = dev.get_pin_mut(0, 0, true).unwrap();
    let _ = p.set_low(&mut dev);
    // Logical bit 0 is the byte's most-significant physical bit.
    assert_eq!(dev.shifters().as_slice(), &[0x7F]);
    assert_eq!(dev.data_line().transitions(), &bits_lsb_first(0x7F));
    assert_eq!(dev.clock_line().transitions(), &pulses(8));
    assert_eq!(dev.latch_line().transitions(), &vec![true, false]);

    let q = dev.get_pin_mut(0, 0, false).unwrap();
    let _ = q.set_high(&mut dev);
    // The bit is restored in the store, but no flush ran: the chain still
    // reflects 0x7F.
    assert_eq!(dev.shifters().as_slice(), &[0xFF]);
    assert_eq!(dev.data_line().transitions(), &bits_lsb_first(0x7F));
    assert_eq!(dev.clock_line().transitions(), &pulses(8));
    assert_eq!(dev.latch_line().transitions(), &vec![true, false]);
}

#[test]
fn construction_errors() {
    let dev = device(2, 0x00);
    assert_eq!(
        dev.get_shifter_mut(2).unwrap_err(),
        ShiftRegisterError::OutOfBounds
    );
    assert!(dev.get_shifter_mut(1).is_ok());
    assert_eq!(
        dev.get_pin_mut(2, 0, false).unwrap_err(),
        ShiftRegisterError::OutOfBounds
    );
    assert_eq!(
        dev.get_pin_mut(1, 8, false).unwrap_err(),
        ShiftRegisterError::BitOutOfRange
    );
    // An out-of-bounds index is reported before a bad bit index.
    assert_eq!(
        dev.get_pin_mut(2, 8, false).unwrap_err(),
        ShiftRegisterError::OutOfBounds
    );
    assert_eq!(
        dev.get_shifter_range_mut(0, 3).unwrap_err(),
        ShiftRegisterError::OutOfBounds
    );
    assert_eq!(
        dev.get_shifter_range_mut(2, 1).unwrap_err(),
        ShiftRegisterError::OutOfBounds
    );
    assert!(dev.get_shifter_range_mut(0, 2).is_ok());
    assert!(dev.get_shifter_range_mut(2, 2).is_ok());

    let h = dev.get_shifter_mut(0).unwrap();
    assert_eq!(
        h.get_pin_mut(8, true).unwrap_err(),
        ShiftRegisterError::BitOutOfRange
    );
    let p = h.get_pin_mut(3, true).unwrap();
    assert_eq!(p.index, 0);
    assert_eq!(p.bit, 3);
    assert!(p.auto_update);
}

#[test]
fn explicit_flush_without_mutation() {
    let mut dev = device(2, 0x0F);
    let h = dev.get_shifter_mut(0).unwrap();
    h.update_shifters(&mut dev);
    assert_eq!(dev.shifters().as_slice(), &[0x0F, 0x0F]);
    assert_eq!(dev.data_line().transitions(), &wire_stream(&[0x0F, 0x0F]));
    assert_eq!(dev.latch_line().transitions(), &vec![true, false]);

    let r = dev.get_shifter_range_mut(0, 1).unwrap();
    r.update_shifters(&mut dev);
    assert_eq!(dev.latch_line().transitions(), &vec![true, false, true, false]);
}

#[test]
fn recording_line_captures_commanded_states() {
    let mut line = RecordingLine::new();
    assert!(line.transitions().is_empty());
    assert_eq!(line.set_high(), Ok(()));
    assert_eq!(line.set_low(), Ok(()));
    assert_eq!(line.set_state(true), Ok(()));
    assert_eq!(line.set_state(false), Ok(()));
    assert_eq!(line.transitions(), &vec![true, false, true, false]);
}
