use vstd::prelude::*;

verus! {

/// TWCR: interrupt flag, set when the controller has finished an operation.
pub const TWINT: u8 = 0x80;
/// TWCR: acknowledge enable.
pub const TWEA: u8 = 0x40;
/// TWCR: START condition requested.
pub const TWSTA: u8 = 0x20;
/// TWCR: STOP condition requested.
pub const TWSTO: u8 = 0x10;
/// TWCR: write collision.
pub const TWWC: u8 = 0x08;
/// TWCR: controller enabled.
pub const TWEN: u8 = 0x04;
/// TWCR: interrupt enable.
pub const TWIE: u8 = 0x01;

/// TWSR: mask of the status code.
pub const TWS_MASK: u8 = 0xF8;
/// TWSR: mask of the prescaler selector.
pub const TWPS_MASK: u8 = 0x03;

/// Status code: illegal bus condition.
pub const TW_BUS_ERROR: u8 = 0x00;
/// Status code: START condition generated.
pub const TW_START: u8 = 0x08;
/// Status code: address and write bit sent, target acknowledged.
pub const TW_MT_SLA_ACK: u8 = 0x18;
/// Status code: data byte sent, target acknowledged.
pub const TW_MT_DATA_ACK: u8 = 0x28;
/// Status code: no relevant state information.
pub const TW_NO_INFO: u8 = 0xF8;

/// Whether any bit of `mask` is set in `x`.
pub open spec fn flag(x: u8, mask: u8) -> bool {
    x & mask != 0
}

/// `x` with the bits of `mask` set (`on`) or cleared (`!on`), all other bits kept.
pub open spec fn with_flag(x: u8, mask: u8, on: bool) -> u8 {
    if on {
        x | mask
    } else {
        x & !mask
    }
}

/// TWBR: bit rate register, a clock divider that is stored as written.
#[derive(Clone, Copy, Debug, PartialEq, Eq, Structural)]
pub struct TWBR(pub u8);

/// TWSR: status register; status code in bits 7..3, prescaler in bits 1..0.
#[derive(Clone, Copy, Debug, PartialEq, Eq, Structural)]
pub struct TWSR(pub u8);

/// TWAR: own slave address in bits 7..1, general call recognition in bit 0.
#[derive(Clone, Copy, Debug, PartialEq, Eq, Structural)]
pub struct TWAR(pub u8);

/// TWDR: next byte to transmit, or last byte received.
#[derive(Clone, Copy, Debug, PartialEq, Eq, Structural)]
pub struct TWDR(pub u8);

/// TWCR: control register, a set of flags.
#[derive(Clone, Copy, Debug, PartialEq, Eq, Structural)]
pub struct TWCR(pub u8);

impl TWSR {
    /// The status code, with the low three bits zero.
    pub fn status(&self) -> (r: u8)
        ensures
            r == self.0 & TWS_MASK,
    {
        self.0 & TWS_MASK
    }

    /// The prescaler selector.
    pub fn prescaler(&self) -> (r: u8)
        ensures
            r == self.0 & TWPS_MASK,
            r < 4,
    {
        let x = self.0;
        assert(x & 0x03u8 < 4) by (bit_vector);
        x & TWPS_MASK
    }
}

impl TWAR {
    /// The controller's own seven-bit slave address.
    pub fn address(&self) -> (r: u8)
        ensures
            r == self.0 >> 1u8,
            r < 0x80,
    {
        let x = self.0;
        assert(x >> 1u8 < 0x80) by (bit_vector);
        x >> 1u8
    }

    /// Whether the general call address is recognised.
    pub fn general_call(&self) -> (r: bool)
        ensures
            r == flag(self.0, 0x01),
    {
        self.0 & 0x01 != 0
    }
}

impl TWCR {
    fn set_flag(&mut self, mask: u8, on: bool)
        ensures
            final(self).0 == with_flag(old(self).0, mask, on),
    {
        if on {
            self.0 = self.0 | mask;
        } else {
            self.0 = self.0 & !mask;
        }
    }

    pub fn twint(&self) -> (r: bool)
        ensures
            r == flag(self.0, TWINT),
    {
        self.0 & TWINT != 0
    }

    pub fn twea(&self) -> (r: bool)
        ensures
            r == flag(self.0, TWEA),
    {
        self.0 & TWEA != 0
    }

    pub fn twsta(&self) -> (r: bool)
        ensures
            r == flag(self.0, TWSTA),
    {
        self.0 & TWSTA != 0
    }

    pub fn twsto(&self) -> (r: bool)
        ensures
            r == flag(self.0, TWSTO),
    {
        self.0 & TWSTO != 0
    }

    pub fn twwc(&self) -> (r: bool)
        ensures
            r == flag(self.0, TWWC),
    {
        self.0 & TWWC != 0
    }

    pub fn twen(&self) -> (r: bool)
        ensures
            r == flag(self.0, TWEN),
    {
        self.0 & TWEN != 0
    }

    pub fn twie(&self) -> (r: bool)
        ensures
            r == flag(self.0, TWIE),
    {
        self.0 & TWIE != 0
    }

    pub fn set_twint(&mut self, on: bool)
        ensures
            final(self).0 == with_flag(old(self).0, TWINT, on),
    {
        self.set_flag(TWINT, on)
    }

    pub fn set_twsta(&mut self, on: bool)
        ensures
            final(self).0 == with_flag(old(self).0, TWSTA, on),
    {
        self.set_flag(TWSTA, on)
    }

    pub fn set_twsto(&mut self, on: bool)
        ensures
            final(self).0 == with_flag(old(self).0, TWSTO, on),
    {
        self.set_flag(TWSTO, on)
    }

    pub fn set_twwc(&mut self, on: bool)
        ensures
            final(self).0 == with_flag(old(self).0, TWWC, on),
    {
        self.set_flag(TWWC, on)
    }

    pub fn set_twen(&mut self, on: bool)
        ensures
            final(self).0 == with_flag(old(self).0, TWEN, on),
    {
        self.set_flag(TWEN, on)
    }
}

} // verus!
