use memory_emulator::error::EmulationError;
use memory_emulator::signal::{Demultiplexer, Multiplexer};
use memory_emulator::trigger::{should_trigger, TriggerMode};

#[test]
fn test_should_trigger_table() {
    // No transition never fires, under any mode.
    assert!(!should_trigger(false, false, TriggerMode::RisingEdge));
    assert!(!should_trigger(true, true, TriggerMode::RisingEdge));
    assert!(!should_trigger(false, false, TriggerMode::FallingEdge));
    assert!(!should_trigger(true, true, TriggerMode::FallingEdge));
    assert!(!should_trigger(false, false, TriggerMode::BothEdges));
    assert!(!should_trigger(true, true, TriggerMode::BothEdges));

    // Rising transitions.
    assert!(should_trigger(false, true, TriggerMode::RisingEdge));
    assert!(!should_trigger(false, true, TriggerMode::FallingEdge));
    assert!(should_trigger(false, true, TriggerMode::BothEdges));

    // Falling transitions.
    assert!(!should_trigger(true, false, TriggerMode::RisingEdge));
    assert!(should_trigger(true, false, TriggerMode::FallingEdge));
    assert!(should_trigger(true, false, TriggerMode::BothEdges));
}

#[test]
fn test_multiplexer_routes_selected_input() {
    let mut mux = Multiplexer::<u8>::new(4);
    mux.set_input_word(0x11, 0);
    mux.set_input_word(0x22, 1);
    mux.set_input_word(0x33, 2);
    mux.set_input_word(0x44, 3);

    // Deselected: reads zero whatever the selector.
    mux.set_selector(2);
    assert_eq!(mux.read_word(), Ok(0));

    mux.set_chip_select(true);
    assert_eq!(mux.read_word(), Ok(0x33));
    mux.set_selector(0);
    assert_eq!(mux.read_word(), Ok(0x11));
}

#[test]
fn test_multiplexer_out_of_range_selector_fails_fast() {
    let mut mux = Multiplexer::<u8>::new(4);
    mux.set_chip_select(true);
    mux.set_selector(4);
    assert_eq!(mux.read_word(), Err(EmulationError::SelectorOutOfRange));

    // Deselected, the same selector reads zero instead of failing.
    mux.set_chip_select(false);
    assert_eq!(mux.read_word(), Ok(0));
}

#[test]
fn test_multiplexer_ignores_out_of_range_input_line() {
    let mut mux = Multiplexer::<u8>::new(2);
    mux.set_input_word(0x77, 5);
    mux.set_chip_select(true);
    mux.set_selector(0);
    assert_eq!(mux.read_word(), Ok(0));
    mux.set_selector(1);
    assert_eq!(mux.read_word(), Ok(0));
}

#[test]
fn test_demultiplexer_fan_out() {
    // For several outputs, exactly the selected index observes the input.
    let mut demux = Demultiplexer::<u8>::new(4);
    demux.set_input_word(0xAB);
    demux.set_selector(2);
    demux.set_chip_select(true);
    assert_eq!(demux.read_word(2), 0xAB);
    assert_eq!(demux.read_word(0), 0);
    assert_eq!(demux.read_word(1), 0);
    assert_eq!(demux.read_word(3), 0);
}

#[test]
fn test_demultiplexer_deselected_reads_zero_everywhere() {
    let mut demux = Demultiplexer::<u8>::new(4);
    demux.set_input_word(0xAB);
    demux.set_selector(2);
    assert_eq!(demux.read_word(2), 0);
    assert_eq!(demux.read_word(0), 0);
}

#[test]
fn test_architecture_bypass_hint() {
    // Fewer than 8 lines set the advisory bypass hint; 8 or more do not.
    assert!(Multiplexer::<u8>::new(7).is_architecture_bypassed());
    assert!(!Multiplexer::<u8>::new(8).is_architecture_bypassed());
    assert!(Demultiplexer::<u8>::new(7).is_architecture_bypassed());
    assert!(!Demultiplexer::<u8>::new(8).is_architecture_bypassed());
}
