use memory_emulator::latch::{ClockTriggerMode, ClockedSetResetLatch, SetResetLatch};
use memory_emulator::sr_latch::SRLatch;

#[test]
pub fn test_init_unclocked() {
    let latch = SetResetLatch::<u8>::new();
    assert_eq!(latch.stored_word, 0);
}

#[test]
pub fn test_set_unclocked() {
    let mut latch = SetResetLatch::<u8>::new();
    latch.set(0b10101010);
    assert_eq!(latch.stored_word, 0b10101010);
}

#[test]
pub fn test_reset_unclocked() {
    let mut latch = SetResetLatch::<u8>::new();
    latch.set(0b10101010);
    latch.reset();
    assert_eq!(latch.stored_word, 0);
}

#[test]
pub fn test_set_reset_then_set_unclocked() {
    let mut latch = SetResetLatch::<u8>::new();
    latch.set(0b10101010);
    latch.reset();
    latch.set(0b01010101);
    assert_eq!(latch.stored_word, 0b01010101);
}

#[test]
pub fn test_32_bits_unclocked() {
    let mut latch = SetResetLatch::<u32>::new();
    latch.set(0b10101010_01010101_10101010_01010101);
    assert_eq!(latch.stored_word, 0b10101010_01010101_10101010_01010101);
}

#[test]
pub fn test_init() {
    let latch = ClockedSetResetLatch::<u8>::new(ClockTriggerMode::Rising);
    assert_eq!(latch.stored_word, 0);
    assert_eq!(latch.clock_trigger_mode, ClockTriggerMode::Rising);
    assert_eq!(latch.direct_input, 0);
    assert!(!latch.clock_state);
}

#[test]
pub fn test_set_clock_rising() {
    let mut latch = ClockedSetResetLatch::<u8>::new(ClockTriggerMode::Rising);

    latch.set_data_input(0b10101010);
    latch.set_clock(true);
    assert_eq!(latch.stored_word, 0b10101010);
    assert!(latch.clock_state);

    latch.set_clock(false);
    assert_eq!(latch.stored_word, 0b10101010);
    assert!(!latch.clock_state);
}

#[test]
pub fn test_set_clock_falling() {
    let mut latch = ClockedSetResetLatch::<u8>::new(ClockTriggerMode::Falling);

    latch.set_data_input(0b10101010);
    latch.set_clock(true);
    assert_eq!(latch.stored_word, 0b00000000);
    assert!(latch.clock_state);

    latch.set_clock(false);
    assert_eq!(latch.stored_word, 0b10101010);
    assert!(!latch.clock_state);
}

#[test]
pub fn test_set_clock_rising_falling() {
    let mut latch = ClockedSetResetLatch::<u8>::new(ClockTriggerMode::RisingFalling);

    latch.set_data_input(0b10101010);
    latch.set_clock(true);
    assert_eq!(latch.stored_word, 0b10101010);
    assert!(latch.clock_state);

    latch.set_clock(false);
    assert_eq!(latch.stored_word, 0b10101010);
    assert!(!latch.clock_state);

    latch.set_clock(true);
    assert_eq!(latch.stored_word, 0b10101010);
    assert!(latch.clock_state);
}

#[test]
fn test_clocked_latch_reset_keeps_clock() {
    let mut latch = ClockedSetResetLatch::<u8>::new(ClockTriggerMode::Rising);
    latch.set_data_input(0x5A);
    latch.set_clock(true);
    assert_eq!(latch.stored_word, 0x5A);
    latch.reset();
    assert_eq!(latch.stored_word, 0);
    assert_eq!(latch.direct_input, 0);
    assert!(latch.clock_state);
}

#[test]
fn test_clock_reassertion_is_idempotent() {
    for mode in [
        ClockTriggerMode::Rising,
        ClockTriggerMode::Falling,
        ClockTriggerMode::RisingFalling,
    ] {
        let mut latch = ClockedSetResetLatch::<u8>::new(mode);
        latch.set_data_input(0x3C);
        latch.set_clock(true);
        let stored_after_first = latch.stored_word;
        let clock_after_first = latch.clock_state;
        latch.set_clock(true);
        assert_eq!(latch.stored_word, stored_after_first);
        assert_eq!(latch.clock_state, clock_after_first);
        latch.set_clock(false);
        let stored_after_fall = latch.stored_word;
        latch.set_clock(false);
        assert_eq!(latch.stored_word, stored_after_fall);
        assert!(!latch.clock_state);
    }
}

#[test]
fn test_sr_latch_set_and_reset() {
    let mut latch = SRLatch::<u32>::new();
    assert_eq!(latch.value, 0);
    latch.set(0xDEAD_BEEF);
    assert_eq!(latch.value, 0xDEAD_BEEF);
    latch.reset();
    assert_eq!(latch.value, 0);
}

#[test]
fn test_sr_latch_default_is_zero() {
    let latch: SRLatch<u8> = Default::default();
    assert_eq!(latch.value, 0);
    let unclocked: SetResetLatch<u8> = Default::default();
    assert_eq!(unclocked.stored_word, 0);
}
