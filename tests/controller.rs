use twi_i2c::device::{transfer_acknowledged, Action, TWI_I2CClass, TWI_I2CState};
use twi_i2c::registers::{TWAR, TWCR, TWSR, TW_MT_DATA_ACK, TW_MT_SLA_ACK, TW_START};

const STATUS: u64 = 1;
const DATA: u64 = 3;
const CONTROL: u64 = 4;

fn started() -> (TWI_I2CState, usize) {
    let mut s = TWI_I2CState::new();
    let mut irqs: usize = 0;
    for value in [0x20u8, 0x84u8] {
        if s.write(CONTROL, value) == Some(Action::RaiseIrq) {
            irqs += 1;
        }
    }
    (s, irqs)
}

#[test]
fn reset_restores_power_on_values() {
    let (mut s, _) = started();
    s.write(DATA, 0x90);
    s.finish_start(true);
    s.write(DATA, 0x12);
    s.reset();
    assert_eq!(s.read(STATUS, 1), 0xF8);
    assert_eq!(s.read(CONTROL, 1), 0x00);
    assert_eq!(s.twdr.0, 0xFF);
    assert_eq!(s.twbr.0, 0x00);
    assert_eq!(s.twar.0, 0xFE);
    assert_eq!(s.twar.address(), 0x7F);
    assert!(!s.twar.general_call());
}

#[test]
fn new_reads_power_on_values() {
    let mut s = TWI_I2CState::new();
    assert_eq!(s.read(STATUS, 1), 0xF8);
    assert_eq!(s.read(CONTROL, 1), 0x00);
    assert_eq!(s.twdr.0, 0xFF);
    assert!(!s.enabled);
}

#[test]
fn stop_request_clears_stop_and_interrupt() {
    for value in [0x10u8, 0x90, 0x94, 0xB4, 0xFF, 0x14] {
        let (mut s, _) = started();
        assert_eq!(s.write(CONTROL, value), Some(Action::EndTransfer));
        let control = s.read(CONTROL, 1) as u8;
        assert_eq!(control & 0x10, 0);
        assert_eq!(control & 0x80, 0);
        assert_eq!(control & 0x04, 0);
    }
}

#[test]
fn data_write_without_interrupt_flag_collides() {
    let mut s = TWI_I2CState::new();
    let status = s.read(STATUS, 1);
    assert_eq!(s.write(DATA, 0x41), None);
    assert_eq!(s.read(STATUS, 1), status);
    assert!(s.twcr.twwc());
    assert_eq!(s.twdr.0, 0x41);
}

#[test]
fn collision_with_same_byte_keeps_data() {
    let mut s = TWI_I2CState::new();
    assert_eq!(s.write(DATA, 0xFF), None);
    assert_eq!(s.twdr.0, 0xFF);
    assert_eq!(s.read(STATUS, 1), 0xF8);
    assert_eq!(s.read(CONTROL, 1), 0x08);
}

#[test]
fn fresh_transaction_reports_start() {
    let (mut s, irqs) = started();
    assert_eq!(s.read(STATUS, 1), TW_START as u64);
    assert_eq!(irqs, 1);
    assert!(s.twcr.twint());
    assert!(s.twcr.twen());
    assert!(s.twcr.twsta());
    assert!(s.enabled);
}

#[test]
fn first_control_write_raises_nothing() {
    let mut s = TWI_I2CState::new();
    assert_eq!(s.write(CONTROL, 0x20), None);
    assert_eq!(s.read(CONTROL, 1), 0x20);
    assert_eq!(s.read(STATUS, 1), 0xF8);
}

#[test]
fn address_byte_after_start() {
    let (mut s, _) = started();
    let action = s.write(DATA, 0x90);
    assert_eq!(action, Some(Action::StartTransfer { address: 0x48, is_recv: false }));
    s.finish_start(true);
    assert_eq!(s.read(STATUS, 1), TW_MT_SLA_ACK as u64);
    assert!(!s.twcr.twsta());
}

#[test]
fn address_byte_without_responder_counts_as_acknowledged() {
    let (mut s, _) = started();
    s.write(DATA, 0x90);
    s.finish_start(false);
    assert_eq!(s.read(STATUS, 1), 0x18);
    assert!(!s.twcr.twsta());
}

#[test]
fn data_byte_after_address() {
    let (mut s, _) = started();
    s.write(DATA, 0x90);
    s.finish_start(true);
    assert_eq!(s.write(DATA, 0x41), Some(Action::Send { byte: 0x41 }));
    assert_eq!(s.read(STATUS, 1), TW_MT_DATA_ACK as u64);
    assert_eq!(s.twdr.0, 0x41);
    assert_eq!(s.write(DATA, 0x42), Some(Action::Send { byte: 0x42 }));
    assert_eq!(s.read(STATUS, 1), 0x28);
}

#[test]
fn continuing_transaction_keeps_status() {
    let (mut s, _) = started();
    s.write(DATA, 0x90);
    s.finish_start(true);
    assert_eq!(s.write(CONTROL, 0x84), Some(Action::RaiseIrq));
    assert_eq!(s.read(STATUS, 1), 0x18);
}

#[test]
fn stop_twice_matches_stop_once() {
    let (mut s, _) = started();
    assert_eq!(s.stop(), Some(Action::EndTransfer));
    let once = s;
    assert_eq!(s.stop(), Some(Action::EndTransfer));
    assert_eq!(s, once);
    assert!(!s.twcr.twint());
    assert!(!s.twcr.twsto());
}

#[test]
fn unmapped_reads_return_sentinel() {
    let mut s = TWI_I2CState::new();
    for offset in [0u64, 2, 3, 5, 6, 100] {
        assert_eq!(s.read(offset, 1), 0xFF);
    }
}

#[test]
fn rate_status_and_address_writes_are_not_stored() {
    let mut s = TWI_I2CState::new();
    let before = s;
    for offset in [0u64, 1, 2, 5, 9] {
        assert_eq!(s.write(offset, 0x42), None);
    }
    assert_eq!(s, before);
}

#[test]
fn register_fields() {
    let c = TWCR(0b1101_0101);
    assert!(c.twint() && c.twea() && !c.twsta() && c.twsto());
    assert!(!c.twwc() && c.twen() && c.twie());
    let mut c = TWCR(0);
    c.set_twwc(true);
    c.set_twen(true);
    assert_eq!(c.0, 0x0C);
    c.set_twwc(false);
    assert_eq!(c.0, 0x04);
    let s = TWSR(0x2B);
    assert_eq!(s.status(), 0x28);
    assert_eq!(s.prescaler(), 0x03);
    let a = TWAR(0x91);
    assert_eq!(a.address(), 0x48);
    assert!(a.general_call());
}

#[test]
fn start_transfer_codes() {
    assert!(transfer_acknowledged(0));
    assert!(transfer_acknowledged(-1));
    assert!(!transfer_acknowledged(1));
}

#[test]
fn class_has_no_fields() {
    let _class = TWI_I2CClass {};
}

#[test]
fn second_transaction_after_stop_reports_start() {
    let (mut s, _) = started();
    s.write(DATA, 0x90);
    s.finish_start(true);
    s.write(DATA, 0x41);
    assert_eq!(s.write(CONTROL, 0x94), Some(Action::EndTransfer));
    assert!(!s.twcr.twen());
    assert_eq!(s.write(CONTROL, 0x20), None);
    assert_eq!(s.write(CONTROL, 0x84), Some(Action::RaiseIrq));
    assert_eq!(s.read(STATUS, 1), 0x08);
    assert!(s.twcr.twen());
}

#[test]
fn stop_clears_enable() {
    let (mut s, _) = started();
    assert!(s.twcr.twen());
    s.stop();
    assert!(!s.twcr.twen());
}

#[test]
fn address_byte_with_read_bit() {
    let (mut s, _) = started();
    let action = s.write(DATA, 0x91);
    assert_eq!(action, Some(Action::StartTransfer { address: 0x48, is_recv: true }));
    s.finish_start(true);
    assert_eq!(s.read(STATUS, 1), 0x18);
    assert!(!s.twcr.twsta());
}
