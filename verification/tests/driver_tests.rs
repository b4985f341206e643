use memory_emulator::error::EmulationError;
use memory_emulator::driver::StaticRandomAccessMemoryDriver;
use memory_emulator::memory::StaticRandomAccessMemory;

fn two_kilo_block_driver() -> StaticRandomAccessMemoryDriver<u16> {
    let blocks = vec![
        StaticRandomAccessMemory::<u16>::new(1024),
        StaticRandomAccessMemory::<u16>::new(1024),
    ];
    StaticRandomAccessMemoryDriver::new(blocks)
}

fn write(driver: &mut StaticRandomAccessMemoryDriver<u16>, address: usize, word: u16) {
    driver.set_write_enable(true);
    driver.set_chip_select(false);
    driver.set_address(address);
    driver.set_feed(word);
    driver.set_clock(true);
    driver.set_clock(false);
}

fn read(driver: &mut StaticRandomAccessMemoryDriver<u16>, address: usize) -> u16 {
    driver.set_chip_select(true);
    driver.set_write_enable(false);
    driver.set_address(address);
    let word = driver.read_word().unwrap();
    driver.set_chip_select(false);
    word
}

#[test]
fn test_driver_write_isolation_across_addresses() {
    // Two blocks of 1024 lines: writing one address must not alter another.
    let mut driver = two_kilo_block_driver();
    write(&mut driver, 1000, 0x1111);
    write(&mut driver, 1, 0x2222);
    assert_eq!(read(&mut driver, 1000), 0x1111);
    assert_eq!(read(&mut driver, 1), 0x2222);

    // And the other way round.
    write(&mut driver, 1, 0x3333);
    assert_eq!(read(&mut driver, 1000), 0x1111);
    assert_eq!(read(&mut driver, 1), 0x3333);
}

#[test]
fn test_driver_address_out_of_range_fails_fast() {
    let mut driver = two_kilo_block_driver();
    driver.set_chip_select(true);
    driver.set_address(2048);
    assert_eq!(driver.read_word(), Err(EmulationError::AddressOutOfRange));
}

#[test]
fn test_driver_round_trip_within_first_block() {
    let mut driver = two_kilo_block_driver();
    write(&mut driver, 0, 0xBEEF);
    write(&mut driver, 1023, 0xCAFE);
    assert_eq!(read(&mut driver, 0), 0xBEEF);
    assert_eq!(read(&mut driver, 1023), 0xCAFE);
}

#[test]
fn test_driver_address_bits() {
    // 2048 lines span 11 address bits.
    assert_eq!(two_kilo_block_driver().get_address_bits(), 11);

    // 16 lines span 4 bits; 3 lines need 2; a single line needs none.
    let driver = StaticRandomAccessMemoryDriver::new(vec![StaticRandomAccessMemory::<u8>::new(16)]);
    assert_eq!(driver.get_address_bits(), 4);
    let driver = StaticRandomAccessMemoryDriver::new(vec![StaticRandomAccessMemory::<u8>::new(3)]);
    assert_eq!(driver.get_address_bits(), 2);
    let driver = StaticRandomAccessMemoryDriver::new(vec![StaticRandomAccessMemory::<u8>::new(1)]);
    assert_eq!(driver.get_address_bits(), 0);

    // 1025 lines no longer fit 10 bits.
    let driver = StaticRandomAccessMemoryDriver::new(vec![
        StaticRandomAccessMemory::<u8>::new(1024),
        StaticRandomAccessMemory::<u8>::new(1),
    ]);
    assert_eq!(driver.get_address_bits(), 11);
}
