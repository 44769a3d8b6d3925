use vstd::prelude::*;
use crate::registers::{
    flag, with_flag, TWAR, TWBR, TWCR, TWDR, TWEN, TWINT, TWSR, TWSTA, TWSTO, TWWC, TW_BUS_ERROR,
    TW_MT_DATA_ACK, TW_MT_SLA_ACK, TW_NO_INFO, TW_START,
};

verus! {

/// Register offsets within the controller's address window.
pub const REG_TWBR: u64 = 0;
pub const REG_TWSR: u64 = 1;
pub const REG_TWAR: u64 = 2;
pub const REG_TWDR: u64 = 3;
pub const REG_TWCR: u64 = 4;

/// Value read from an offset that holds no readable register.
pub const UNMAPPED_READ: u64 = 0xFF;

/// What the host must do on the controller's behalf after a register write.
#[derive(Clone, Copy, Debug, PartialEq, Eq, Structural)]
pub enum Action {
    /// Set the interrupt line to level 1.
    RaiseIrq,
    /// Begin a transfer to `address`; its outcome is reported back through
    /// `TWI_I2CState::finish_start`.
    StartTransfer { address: u8, is_recv: bool },
    /// Send one byte to the target currently addressed.
    Send { byte: u8 },
    /// End the current transfer.
    EndTransfer,
}

/// Register state of one controller.
///
/// `twcr`'s TWEN bit tells whether a transaction is open; `enabled` caches the
/// TWEN bit of the last control write.
#[allow(non_camel_case_types)]
#[derive(Clone, Copy, Debug, PartialEq, Eq, Structural)]
pub struct TWI_I2CState {
    pub twbr: TWBR,
    pub twsr: TWSR,
    pub twar: TWAR,
    pub twdr: TWDR,
    pub twcr: TWCR,
    pub enabled: bool,
}

/// Class data of the controller type; it carries no fields.
#[allow(non_camel_case_types)]
pub struct TWI_I2CClass {}

/// `s` with every register at its power-on value; `enabled` is kept.
pub open spec fn reset_state(s: TWI_I2CState) -> TWI_I2CState {
    TWI_I2CState {
        twbr: TWBR(0),
        twsr: TWSR(TW_NO_INFO),
        twar: TWAR(0xFE),
        twdr: TWDR(0xFF),
        twcr: TWCR(0),
        ..s
    }
}

/// The value a guest reads at `offset`.
pub open spec fn register_read(s: TWI_I2CState, offset: u64) -> u64 {
    if offset == REG_TWSR {
        s.twsr.0 as u64
    } else if offset == REG_TWCR {
        s.twcr.0 as u64
    } else {
        UNMAPPED_READ
    }
}

/// Control byte `c` after a STOP: STOP request, interrupt flag and enable
/// bit cleared, so that the controller is idle again.
pub open spec fn stopped_control(c: u8) -> u8 {
    with_flag(with_flag(with_flag(c, TWSTO, false), TWINT, false), TWEN, false)
}

/// `s` after a STOP: only the control register changes, to `stopped_control`.
pub open spec fn stopped(s: TWI_I2CState) -> TWI_I2CState {
    TWI_I2CState { twcr: TWCR(stopped_control(s.twcr.0)), ..s }
}

/// Whether `code` is one of the status codes the controller reports.
pub open spec fn is_status_code(code: u8) -> bool {
    code == TW_BUS_ERROR || code == TW_START || code == TW_MT_SLA_ACK || code == TW_MT_DATA_ACK
}

/// State and action after the guest writes `r` to the control register.
pub open spec fn control_written(s: TWI_I2CState, r: u8) -> (TWI_I2CState, Option<Action>) {
    let c1 = with_flag(s.twcr.0, TWINT, flag(r, TWINT));
    let c2 = if flag(r, TWSTA) { with_flag(c1, TWSTA, true) } else { c1 };
    let s1 = TWI_I2CState { enabled: flag(r, TWEN), twcr: TWCR(c2), ..s };
    if flag(r, TWSTO) {
        (stopped(s1), Some(Action::EndTransfer))
    } else if flag(r, TWINT) && flag(r, TWEN) {
        let fresh = !flag(c2, TWEN);
        let status = if fresh { TWSR(TW_START) } else { s.twsr };
        let c3 = with_flag(if fresh { with_flag(c2, TWEN, true) } else { c2 }, TWINT, true);
        (TWI_I2CState { twsr: status, twcr: TWCR(c3), ..s1 }, Some(Action::RaiseIrq))
    } else {
        (s1, None)
    }
}

/// State and action after the guest writes `b` to the data register.
pub open spec fn data_written(s: TWI_I2CState, b: u8) -> (TWI_I2CState, Option<Action>) {
    let s1 = TWI_I2CState { twdr: TWDR(b), ..s };
    if !flag(s.twcr.0, TWINT) {
        (TWI_I2CState { twcr: TWCR(with_flag(s.twcr.0, TWWC, true)), ..s1 }, None)
    } else if flag(s.twcr.0, TWSTA) {
        (
            TWI_I2CState { twcr: TWCR(with_flag(s.twcr.0, TWSTA, false)), ..s1 },
            Some(Action::StartTransfer { address: b >> 1u8, is_recv: b & 1u8 == 1u8 }),
        )
    } else {
        (TWI_I2CState { twsr: TWSR(TW_MT_DATA_ACK), ..s1 }, Some(Action::Send { byte: b }))
    }
}

/// Status after the address byte went out. A missing responder is reported
/// as an acknowledgement too, so that the controller can run with no target
/// attached.
pub open spec fn address_status(acknowledged: bool) -> u8 {
    TW_MT_SLA_ACK
}

/// State and action after the guest writes `data` at `offset`. Writes to
/// the rate, status and address registers are accepted and not stored.
pub open spec fn register_written(s: TWI_I2CState, offset: u64, data: u8) -> (
    TWI_I2CState,
    Option<Action>,
) {
    if offset == REG_TWDR {
        data_written(s, data)
    } else if offset == REG_TWCR {
        control_written(s, data)
    } else {
        (s, None)
    }
}

impl TWI_I2CState {
    /// A controller with its power-on register values, disabled.
    pub fn new() -> (r: Self)
        ensures
            r.twbr.0 == 0,
            r.twsr.0 == TW_NO_INFO,
            r.twar.0 == 0xFE,
            r.twdr.0 == 0xFF,
            r.twcr.0 == 0,
            !r.enabled,
    {
        TWI_I2CState {
            twbr: TWBR(0),
            twsr: TWSR(TW_NO_INFO),
            twar: TWAR(0xFE),
            twdr: TWDR(0xFF),
            twcr: TWCR(0),
            enabled: false,
        }
    }

    /// Restore the registers to their power-on values.
    pub fn reset(&mut self)
        ensures
            *final(self) == reset_state(*old(self)),
    {
        self.twbr = TWBR(0);
        self.twsr = TWSR(0b11111000);
        self.twar = TWAR(0b11111110);
        self.twdr = TWDR(0xFF);
        self.twcr = TWCR(0);
    }

    /// Read the register at `offset`: status and control read back as stored,
    /// every other offset reads as `UNMAPPED_READ`.
    pub fn read(&mut self, offset: u64, _size: u32) -> (r: u64)
        ensures
            r == register_read(*old(self), offset),
            *final(self) == *old(self),
    {
        if offset == REG_TWSR {
            self.twsr.0 as u64
        } else if offset == REG_TWCR {
            self.twcr.0 as u64
        } else {
            UNMAPPED_READ
        }
    }

    /// Write `data` at `offset`, returning the action the host must perform.
    pub fn write(&mut self, address: u64, data: u8) -> (r: Option<Action>)
        ensures
            (*final(self), r) == register_written(*old(self), address, data),
    {
        if address == REG_TWDR {
            self.twdr = TWDR(data);
            self.write_data()
        } else if address == REG_TWCR {
            self.write_control(data)
        } else {
            None
        }
    }

    fn write_control(&mut self, data: u8) -> (r: Option<Action>)
        ensures
            (*final(self), r) == control_written(*old(self), data),
    {
        let r = TWCR(data);
        self.enabled = r.twen();
        self.twcr.set_twint(r.twint());
        if r.twsta() {
            self.twcr.set_twsta(true);
        }
        if r.twsto() {
            self.stop()
        } else if r.twint() && r.twen() {
            if !self.twcr.twen() {
                self.set_status(TW_START);
                self.twcr.set_twen(true);
            }
            self.twcr.set_twint(true);
            Some(Action::RaiseIrq)
        } else {
            None
        }
    }

    /// Handle a STOP condition: clear the STOP request, the interrupt flag and
    /// the enable bit, and ask the host to end the transfer.
    pub fn stop(&mut self) -> (r: Option<Action>)
        ensures
            *final(self) == stopped(*old(self)),
            r == Some(Action::EndTransfer),
    {
        self.twcr.set_twsto(false);
        self.twcr.set_twint(false);
        self.twcr.set_twen(false);
        Some(Action::EndTransfer)
    }

    fn write_data(&mut self) -> (r: Option<Action>)
        ensures
            (*final(self), r) == data_written(*old(self), old(self).twdr.0),
    {
        if !self.twcr.twint() {
            self.twcr.set_twwc(true);
            return None;
        }
        if self.twcr.twsta() {
            self.twcr.set_twsta(false);
            let byte = self.twdr.0;
            Some(Action::StartTransfer { address: byte >> 1u8, is_recv: byte & 1u8 == 1u8 })
        } else {
            self.set_status(TW_MT_DATA_ACK);
            Some(Action::Send { byte: self.twdr.0 })
        }
    }

    /// Record the outcome of the transfer begun for `Action::StartTransfer`.
    pub fn finish_start(&mut self, acknowledged: bool)
        ensures
            *final(self) == (TWI_I2CState { twsr: TWSR(address_status(acknowledged)), ..*old(self) }),
    {
        if acknowledged {
            self.set_status(TW_MT_SLA_ACK);
        } else {
            // No target answered: reported as acknowledged all the same.
            self.set_status(TW_MT_SLA_ACK);
        }
    }

    fn set_status(&mut self, status: u8)
        ensures
            *final(self) == (TWI_I2CState { twsr: TWSR(status), ..*old(self) }),
    {
        self.twsr = TWSR(status);
    }
}

/// Whether a bus's start-transfer return code means that a target answered:
/// a positive code means that none did.
pub fn transfer_acknowledged(code: i32) -> (r: bool)
    ensures
        r == (code <= 0),
{
    code <= 0
}

/// After a reset, whatever the state before, the status register reads
/// 0xF8, the control register reads 0x00 and the data register holds 0xFF.
pub proof fn lemma_reset_reads(s: TWI_I2CState)
    ensures
        register_read(reset_state(s), REG_TWSR) == 0xF8,
        register_read(reset_state(s), REG_TWCR) == 0x00,
        reset_state(s).twdr.0 == 0xFF,
{
}

/// A control write with the STOP request set always leaves the STOP request,
/// the interrupt flag and the enable bit clear, and asks the host to end the
/// transfer.
pub proof fn lemma_stop_request_clears(s: TWI_I2CState, r: u8)
    requires
        flag(r, TWSTO),
    ensures
        !flag(control_written(s, r).0.twcr.0, TWSTO),
        !flag(control_written(s, r).0.twcr.0, TWINT),
        register_read(control_written(s, r).0, REG_TWCR) & (TWSTO as u64) == 0,
        register_read(control_written(s, r).0, REG_TWCR) & (TWINT as u64) == 0,
        !flag(control_written(s, r).0.twcr.0, TWEN),
        control_written(s, r).1 == Some(Action::EndTransfer),
{
    let c = control_written(s, r).0.twcr.0;
    let c1 = with_flag(s.twcr.0, TWINT, flag(r, TWINT));
    let c2 = if flag(r, TWSTA) { with_flag(c1, TWSTA, true) } else { c1 };
    assert(c == stopped_control(c2));
    assert(!flag(c, TWSTO) && !flag(c, TWINT) && !flag(c, TWEN) && (c as u64) & 0x10u64 == 0
        && (c as u64) & 0x80u64 == 0) by (bit_vector)
        requires
            c == stopped_control(c2),
    ;
}

/// A data write while the interrupt flag is clear is a collision: the status
/// stays, the write-collision flag is set, nothing is asked of the host, and
/// no register but control and data changes. The byte written is stored, so
/// the data register is unchanged only when it already held that byte.
pub proof fn lemma_collision_discards(s: TWI_I2CState, b: u8)
    requires
        !flag(s.twcr.0, TWINT),
        b == s.twdr.0,
    ensures
        data_written(s, b).0.twsr == s.twsr,
        flag(data_written(s, b).0.twcr.0, TWWC),
        data_written(s, b).0.twdr == s.twdr,
        data_written(s, b).1 == None::<Action>,
        data_written(s, b).0 == (TWI_I2CState { twcr: data_written(s, b).0.twcr, ..s }),
{
    let x = s.twcr.0;
    assert(flag(with_flag(x, TWWC, true), TWWC)) by (bit_vector);
}

/// Stopping a second time changes nothing: the state after two stops is the
/// state after one.
pub proof fn lemma_stop_idempotent(s: TWI_I2CState)
    ensures
        stopped(stopped(s)) == stopped(s),
{
    let x = s.twcr.0;
    assert(stopped_control(stopped_control(x)) == stopped_control(x)) by (bit_vector);
}

/// After a STOP the controller is idle: the next control write that sets
/// INT and ENABLE without a STOP request opens a fresh transaction, reports
/// START and raises the interrupt.
pub proof fn lemma_restart_after_stop(s: TWI_I2CState, r: u8)
    requires
        flag(r, TWINT),
        flag(r, TWEN),
        !flag(r, TWSTO),
    ensures
        control_written(stopped(s), r).0.twsr.0 == TW_START,
        flag(control_written(stopped(s), r).0.twcr.0, TWEN),
        control_written(stopped(s), r).1 == Some(Action::RaiseIrq),
{
    let x = s.twcr.0;
    let c1 = with_flag(stopped_control(x), TWINT, true);
    assert(!flag(c1, TWEN) && !flag(with_flag(c1, TWSTA, true), TWEN)) by (bit_vector)
        requires
            c1 == with_flag(stopped_control(x), TWINT, true),
    ;
    assert(flag(with_flag(with_flag(c1, TWEN, true), TWINT, true), TWEN)) by (bit_vector);
    assert(flag(with_flag(with_flag(with_flag(c1, TWSTA, true), TWEN, true), TWINT, true), TWEN))
        by (bit_vector);
}

/// A data write while the interrupt flag is set and no START is pending is
/// a payload byte: it is stored, sent to the target, and the status becomes
/// MASTER_TX_DATA_ACK; the control register is unchanged.
pub proof fn lemma_payload_byte(s: TWI_I2CState, b: u8)
    requires
        flag(s.twcr.0, TWINT),
        !flag(s.twcr.0, TWSTA),
    ensures
        data_written(s, b).1 == Some(Action::Send { byte: b }),
        data_written(s, b).0.twsr.0 == TW_MT_DATA_ACK,
        data_written(s, b).0.twdr.0 == b,
        data_written(s, b).0.twcr == s.twcr,
{
}

/// A data write while the interrupt flag and a START request are set is the
/// address byte: the target address is its top seven bits, the direction its
/// bit 0 (set for receive), and the START request is cleared.
pub proof fn lemma_address_byte(s: TWI_I2CState, b: u8)
    requires
        flag(s.twcr.0, TWINT),
        flag(s.twcr.0, TWSTA),
    ensures
        data_written(s, b).1 == Some(
            Action::StartTransfer { address: b >> 1u8, is_recv: b & 1u8 == 1u8 },
        ),
        !flag(data_written(s, b).0.twcr.0, TWSTA),
        data_written(s, b).0.twsr == s.twsr,
        data_written(s, b).0.twdr.0 == b,
{
    let x = s.twcr.0;
    assert(!flag(with_flag(x, TWSTA, false), TWSTA)) by (bit_vector);
}

/// A register write either keeps the status register or stores a status
/// code of the vocabulary; so does reporting a transfer's start.
pub proof fn lemma_status_codes(s: TWI_I2CState, offset: u64, data: u8, acknowledged: bool)
    ensures
        register_written(s, offset, data).0.twsr == s.twsr || is_status_code(
            register_written(s, offset, data).0.twsr.0,
        ),
        is_status_code(address_status(acknowledged)),
{
}

} // verus!
