use memory_emulator::controller::{MemoryController, MemoryControllerQueue, MemoryControllerQueueJob};
use memory_emulator::driver::StaticRandomAccessMemoryDriver;
use memory_emulator::error::EmulationError;
use memory_emulator::memory::StaticRandomAccessMemory;

fn controller_with(cores: usize, lines: usize) -> MemoryController<usize> {
    let blocks = vec![StaticRandomAccessMemory::<usize>::new(lines)];
    let driver = StaticRandomAccessMemoryDriver::new(blocks);
    MemoryController::new(cores, driver)
}

fn pulse(controller: &mut MemoryController<usize>) {
    controller.set_clock(true).unwrap();
    controller.set_clock(false).unwrap();
}

#[test]
fn test_round_robin_services_cores_in_order() {
    let mut controller = controller_with(4, 16);
    for core in 0..4 {
        controller.set_chip_select(true, core);
        controller.set_write_enable(true, core);
        controller.set_address(core, core);
        controller.set_feed(10 + core, core);
    }

    // Each pulse services exactly the next core in id order: its response
    // slot fills while the later cores' slots are still empty.
    for serviced in 0..4 {
        pulse(&mut controller);
        for core in 0..4 {
            let expected = if core <= serviced { 10 + core } else { 0 };
            assert_eq!(controller.read_word(core), expected);
        }
    }

    // A fifth pulse wraps around and services core 0 again.
    controller.set_feed(99, 0);
    pulse(&mut controller);
    assert_eq!(controller.read_word(0), 99);
    assert_eq!(controller.read_word(1), 11);
}

#[test]
fn test_last_write_wins_between_services() {
    let mut controller = controller_with(1, 8);
    controller.set_chip_select(true, 0);
    controller.set_write_enable(true, 0);
    controller.set_address(3, 0);
    controller.set_feed(5, 0);
    controller.set_feed(7, 0);
    pulse(&mut controller);
    // Only the second staged word was applied (and read back on service).
    assert_eq!(controller.read_word(0), 7);

    controller.set_write_enable(false, 0);
    pulse(&mut controller);
    assert_eq!(controller.read_word(0), 7);
}

#[test]
fn test_clock_reassertion_is_a_no_op() {
    let mut controller = controller_with(2, 8);
    controller.set_chip_select(true, 0);
    controller.set_write_enable(true, 0);
    controller.set_address(2, 0);
    controller.set_feed(42, 0);
    controller.set_clock(true).unwrap();
    assert_eq!(controller.read_word(0), 42);
    // Re-asserting the same level services nothing further.
    controller.set_feed(43, 0);
    controller.set_clock(true).unwrap();
    assert_eq!(controller.read_word(0), 42);
}

#[test]
fn test_staged_address_beyond_space_fails_on_service() {
    let mut controller = controller_with(1, 8);
    controller.set_chip_select(true, 0);
    controller.set_address(8, 0);
    assert_eq!(controller.set_clock(true), Err(EmulationError::AddressOutOfRange));
}

#[test]
fn test_controller_reports_driver_address_bits() {
    let controller = controller_with(4, 16);
    assert_eq!(controller.get_address_bits(), 4);
}

#[test]
fn test_queue_staging_and_getters() {
    let mut queue = MemoryControllerQueue::<u8>::new();
    assert!(!queue.get_chip_select());
    assert!(!queue.get_write_enable());
    assert_eq!(queue.get_address(), 0);
    assert_eq!(queue.get_data(), 0);
    assert_eq!(queue.get_response_data(), 0);

    queue.set_chip_select(true);
    queue.set_write_enable(true);
    queue.set_address(9);
    queue.set_data(0x55);
    queue.set_response_data(0x66);
    assert!(queue.get_chip_select());
    assert!(queue.get_write_enable());
    assert_eq!(queue.get_address(), 9);
    assert_eq!(queue.get_data(), 0x55);
    assert_eq!(queue.get_response_data(), 0x66);

    assert!(MemoryControllerQueueJob::Idle != MemoryControllerQueueJob::Read);
    assert!(MemoryControllerQueueJob::Read != MemoryControllerQueueJob::Write);
}
