use memory_emulator::file::{Command, File};
use memory_emulator::register::PIPORegister;
use memory_emulator::trigger::TriggerMode;

#[test]
fn test_pipo_register_starts_zeroed() {
    let register = PIPORegister::new(4, TriggerMode::RisingEdge);
    assert_eq!(register.byte_quantity, 4);
    assert!(!register.clock_state);
    assert_eq!(register.byte_buffer, vec![0, 0, 0, 0]);
}

#[test]
fn test_pipo_register_set_byte_is_immediate() {
    let mut register = PIPORegister::new(4, TriggerMode::RisingEdge);
    register.set_byte(0xAA, 2);
    assert_eq!(register.byte_buffer, vec![0, 0, 0xAA, 0]);
    register.set_byte(0xBB, 2);
    assert_eq!(register.byte_buffer, vec![0, 0, 0xBB, 0]);
}

#[test]
fn test_pipo_register_reports_trigger_per_mode() {
    let mut rising = PIPORegister::new(1, TriggerMode::RisingEdge);
    assert!(rising.set_clock_state(true));
    assert!(!rising.set_clock_state(true));
    assert!(!rising.set_clock_state(false));

    let mut falling = PIPORegister::new(1, TriggerMode::FallingEdge);
    assert!(!falling.set_clock_state(true));
    assert!(falling.set_clock_state(false));
    assert!(!falling.set_clock_state(false));

    let mut both = PIPORegister::new(1, TriggerMode::BothEdges);
    assert!(both.set_clock_state(true));
    assert!(both.set_clock_state(false));
    assert!(!both.set_clock_state(false));
}

#[test]
fn test_file_starts_with_read_job_at_address_zero() {
    let file = File::new(8, TriggerMode::RisingEdge);
    assert_eq!(file.byte_quantity, 8);
    assert_eq!(file.address_index, 0);
    assert!(!file.clock_state);
    assert!(file.job == Command::Read);
    assert_eq!(file.byte_buffer.byte_buffer.len(), 8);
}

#[test]
fn test_file_writes_byte_at_current_address() {
    let mut file = File::new(8, TriggerMode::RisingEdge);
    file.set_address(5);
    file.set_byte(0x42);
    assert_eq!(file.byte_buffer.byte_buffer[5], 0x42);
    assert_eq!(file.byte_buffer.byte_buffer[0], 0);
}

#[test]
fn test_file_reports_trigger_and_keeps_bytes() {
    let mut file = File::new(4, TriggerMode::FallingEdge);
    file.set_job(Command::Write);
    file.set_byte(0x10);
    assert!(!file.set_clock_state(true));
    assert!(file.clock_state);
    assert!(file.set_clock_state(false));
    assert!(!file.clock_state);
    assert!(!file.set_clock_state(false));
    assert!(file.job == Command::Write);
    assert_eq!(file.byte_buffer.byte_buffer[0], 0x10);
}
