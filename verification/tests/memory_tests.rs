use memory_emulator::error::EmulationError;
use memory_emulator::memory::{RegisterParallelInParallelOut, StaticRandomAccessMemory};

#[test]
fn test_register_cell_write_needs_enable_and_rising_edge() {
    let mut cell = RegisterParallelInParallelOut::<u8>::new();
    cell.set_queued_input(0x5A);

    // Without write-enable the clock is ignored entirely.
    cell.set_clock(true);
    cell.set_chip_select(true);
    assert_eq!(cell.read_word(), 0);
    cell.set_clock(false);

    // With write-enable, the rising edge stores the queued input.
    cell.set_write_enable(true);
    cell.set_clock(true);
    assert_eq!(cell.read_word(), 0x5A);

    // The falling edge stores nothing.
    cell.set_queued_input(0x99);
    cell.set_clock(false);
    assert_eq!(cell.read_word(), 0x5A);
}

#[test]
fn test_register_cell_chip_select_gates_reads() {
    let mut cell = RegisterParallelInParallelOut::<u8>::new();
    cell.set_write_enable(true);
    cell.set_queued_input(0x42);
    cell.set_clock(true);

    // Deselected cells read as zero even though data is stored.
    assert_eq!(cell.read_word(), 0);
    cell.set_chip_select(true);
    assert_eq!(cell.read_word(), 0x42);

    let fresh: RegisterParallelInParallelOut<u8> = Default::default();
    assert_eq!(fresh.read_word(), 0);
}

#[test]
fn test_block_write_read_round_trip() {
    // A block of 8 lines: write 0x42 to address 0, read it back.
    let mut block = StaticRandomAccessMemory::<u8>::new(8);
    block.set_write_enable(true);
    block.set_chip_select(false);
    block.set_address(0);
    block.set_feed(0x42);
    block.set_clock(true);
    block.set_clock(false);
    block.set_chip_select(true);
    block.set_write_enable(false);
    assert_eq!(block.read_word(), Ok(0x42));
}

#[test]
fn test_block_round_trip_at_every_address() {
    let mut block = StaticRandomAccessMemory::<u32>::new(8);
    for address in 0..8 {
        let word = 0x1000 + address as u32;
        block.set_write_enable(true);
        block.set_chip_select(false);
        block.set_address(address);
        block.set_feed(word);
        block.set_clock(true);
        block.set_clock(false);
        block.set_chip_select(true);
        block.set_write_enable(false);
        assert_eq!(block.read_word(), Ok(word));
    }
    // Earlier writes survived the later ones.
    for address in 0..8 {
        block.set_address(address);
        assert_eq!(block.read_word(), Ok(0x1000 + address as u32));
    }
}

#[test]
fn test_block_deselected_reads_zero() {
    let mut block = StaticRandomAccessMemory::<u8>::new(4);
    block.set_write_enable(true);
    block.set_address(1);
    block.set_feed(0x7F);
    block.set_clock(true);
    block.set_clock(false);
    assert_eq!(block.read_word(), Ok(0));
}

#[test]
fn test_block_selector_out_of_range_fails_fast() {
    let mut block = StaticRandomAccessMemory::<u8>::new(4);
    block.set_chip_select(true);
    block.set_address(4);
    assert_eq!(block.read_word(), Err(EmulationError::SelectorOutOfRange));
}

#[test]
fn test_block_address_change_prevents_ghost_writes() {
    let mut block = StaticRandomAccessMemory::<u8>::new(4);
    // Stage a write to address 2, but move the address before the edge:
    // the control word follows the address, so only address 3 is writable.
    block.set_write_enable(true);
    block.set_address(2);
    block.set_feed(0x11);
    block.set_address(3);
    block.set_clock(true);
    block.set_clock(false);
    block.set_chip_select(true);
    block.set_write_enable(false);
    block.set_address(2);
    assert_eq!(block.read_word(), Ok(0));
    // The fed word went into the queue of the cell addressed at feed time,
    // so address 3 stored nothing either.
    block.set_address(3);
    assert_eq!(block.read_word(), Ok(0));
}

#[test]
fn test_block_line_count() {
    let block = StaticRandomAccessMemory::<u8>::new(16);
    assert_eq!(block.get_memory_lines_count(), 16);
}
