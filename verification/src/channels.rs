//! Channel control: validation, encoding and the bus transactions.
//!
//! Every operation validates its counter values before touching the bus,
//! so a rejected input is side-effect-free: the contracts state this as
//! the bus history being left unchanged. On success each operation issues
//! exactly one write (the whole-bank update issues the auto-increment
//! enable and then one write), and the contracts pin the payload down to
//! the byte.

use vstd::prelude::*;

use crate::bus::{BusOperation, I2cBus};
use crate::encoding::{
    all_channels_write, double_register_write, interleaved_blocks, lemma_interleaved_blocks_len,
    two_double_register_write,
};
use crate::registers::{
    get_register_off, get_register_on, off_register, on_register, Channel, C0_ON_L,
};

verus! {

/// What a driver operation can fail with: a counter value over 4095, or a
/// fault the bus transport reported, surfaced unmodified.
#[derive(Debug, Clone, Copy, PartialEq, Eq)]
pub enum Error<E> {
    /// The underlying bus transport reported a fault.
    I2C(E),
    /// A caller-supplied counter value lies outside 0..=4095.
    InvalidInputData,
}

/// Every element of both 16-entry counter banks lies in the valid 12-bit
/// range.
pub open spec fn all_values_valid(on: Seq<u16>, off: Seq<u16>) -> bool {
    forall|i: int| 0 <= i < 16 ==> on[i] <= 4095 && off[i] <= 4095
}

/// A PCA9685 device: the bus transport it owns and its device address on
/// that bus.
pub struct Pca9685<B> {
    /// The owned bus-transport capability.
    pub bus: B,
    /// The device's address on the bus, fixed for the session.
    pub address: u8,
}

impl<B: I2cBus> Pca9685<B> {
    /// A driver bound to the given transport and device address.
    pub fn new(bus: B, address: u8) -> (device: Pca9685<B>)
        ensures
            device.bus == bus,
            device.address == address,
    {
        Pca9685 { bus, address }
    }

    /// Releases the bus transport.
    pub fn destroy(self) -> (bus: B)
        ensures
            bus == self.bus,
    {
        self.bus
    }

    /// Writes `word` to the register pair starting at `reg`, as one
    /// three-byte transaction: register address, low byte, high byte.
    fn write_double_register(&mut self, reg: u8, word: u16) -> (result: Result<
        (),
        Error<B::BusError>,
    >)
        ensures
            final(self).address == old(self).address,
            match result {
                Ok(()) => final(self).bus.history() == old(self).bus.history().push(
                    (BusOperation::Write {
                        address: old(self).address,
                        bytes: double_register_write(reg, word),
                    }),
                ),
                Err(e) => e is I2C && final(self).bus.history() == old(self).bus.history(),
            },
    {
        let mut bytes: Vec<u8> = Vec::new();
        bytes.push(reg);
        bytes.push((word & 0xff) as u8);
        bytes.push((word >> 8) as u8);
        proof {
            assert(bytes@ =~= double_register_write(reg, word));
        }
        match self.bus.write(self.address, &bytes) {
            Ok(()) => Ok(()),
            Err(e) => Err(Error::I2C(e)),
        }
    }

    /// Writes `first` and `second` to two consecutive register pairs
    /// starting at `reg`, as one five-byte transaction.
    fn write_two_double_registers(&mut self, reg: u8, first: u16, second: u16) -> (result: Result<
        (),
        Error<B::BusError>,
    >)
        ensures
            final(self).address == old(self).address,
            match result {
                Ok(()) => final(self).bus.history() == old(self).bus.history().push(
                    (BusOperation::Write {
                        address: old(self).address,
                        bytes: two_double_register_write(reg, first, second),
                    }),
                ),
                Err(e) => e is I2C && final(self).bus.history() == old(self).bus.history(),
            },
    {
        let mut bytes: Vec<u8> = Vec::new();
        bytes.push(reg);
        bytes.push((first & 0xff) as u8);
        bytes.push((first >> 8) as u8);
        bytes.push((second & 0xff) as u8);
        bytes.push((second >> 8) as u8);
        proof {
            assert(bytes@ =~= two_double_register_write(reg, first, second));
        }
        match self.bus.write(self.address, &bytes) {
            Ok(()) => Ok(()),
            Err(e) => Err(Error::I2C(e)),
        }
    }

    /// Sets the channel's on-counter: the point in the 4096-step cycle at
    /// which the output turns on.
    ///
    /// A value over 4095 is rejected before any transaction. The full-off
    /// override, when set, takes precedence over any on setting.
    pub fn set_channel_on(&mut self, channel: Channel, value: u16) -> (result: Result<
        (),
        Error<B::BusError>,
    >)
        ensures
            final(self).address == old(self).address,
            value > 4095 ==> (result matches Err(Error::InvalidInputData)) && final(self).bus.history() == old(self).bus.history(),
            value <= 4095 ==> match result {
                Ok(()) => final(self).bus.history() == old(self).bus.history().push(
                    (BusOperation::Write {
                        address: old(self).address,
                        bytes: double_register_write(on_register(channel), value),
                    }),
                ),
                Err(e) => e is I2C && final(self).bus.history() == old(self).bus.history(),
            },
    {
        if value > 4095 {
            return Err(Error::InvalidInputData);
        }
        let reg = get_register_on(channel);
        self.write_double_register(reg, value)
    }

    /// Sets the channel's off-counter: the point in the 4096-step cycle at
    /// which the output turns off.
    ///
    /// A value over 4095 is rejected before any transaction. Writing the
    /// off-counter is also what clears a previously set full-off override.
    pub fn set_channel_off(&mut self, channel: Channel, value: u16) -> (result: Result<
        (),
        Error<B::BusError>,
    >)
        ensures
            final(self).address == old(self).address,
            value > 4095 ==> (result matches Err(Error::InvalidInputData)) && final(self).bus.history() == old(self).bus.history(),
            value <= 4095 ==> match result {
                Ok(()) => final(self).bus.history() == old(self).bus.history().push(
                    (BusOperation::Write {
                        address: old(self).address,
                        bytes: double_register_write(off_register(channel), value),
                    }),
                ),
                Err(e) => e is I2C && final(self).bus.history() == old(self).bus.history(),
            },
    {
        if value > 4095 {
            return Err(Error::InvalidInputData);
        }
        let reg = get_register_off(channel);
        self.write_double_register(reg, value)
    }

    /// Sets the channel's on- and off-counters in one five-byte
    /// transaction starting at the on-register pair.
    ///
    /// Both values are validated before any transaction: if either is over
    /// 4095, nothing is written, not even a partial pair.
    pub fn set_channel_on_off(&mut self, channel: Channel, on: u16, off: u16) -> (result: Result<
        (),
        Error<B::BusError>,
    >)
        ensures
            final(self).address == old(self).address,
            on > 4095 || off > 4095 ==> (result matches Err(Error::InvalidInputData)) && final(self).bus.history() == old(self).bus.history(),
            on <= 4095 && off <= 4095 ==> match result {
                Ok(()) => final(self).bus.history() == old(self).bus.history().push(
                    (BusOperation::Write {
                        address: old(self).address,
                        bytes: two_double_register_write(on_register(channel), on, off),
                    }),
                ),
                Err(e) => e is I2C && final(self).bus.history() == old(self).bus.history(),
            },
    {
        if on > 4095 || off > 4095 {
            return Err(Error::InvalidInputData);
        }
        let reg = get_register_on(channel);
        self.write_two_double_registers(reg, on, off)
    }

    /// Forces the channel fully on by writing the value with bit 12 set to
    /// the on-register pair; the 12-bit value is retained in the low bits
    /// alongside the flag, exactly as the device stores it.
    ///
    /// The full-off override, when set, still takes precedence.
    pub fn set_channel_full_on(&mut self, channel: Channel, value: u16) -> (result: Result<
        (),
        Error<B::BusError>,
    >)
        ensures
            final(self).address == old(self).address,
            value > 4095 ==> (result matches Err(Error::InvalidInputData)) && final(self).bus.history() == old(self).bus.history(),
            value <= 4095 ==> match result {
                Ok(()) => final(self).bus.history() == old(self).bus.history().push(
                    (BusOperation::Write {
                        address: old(self).address,
                        bytes: double_register_write(on_register(channel), value | 0x1000),
                    }),
                ),
                Err(e) => e is I2C && final(self).bus.history() == old(self).bus.history(),
            },
    {
        if value > 4095 {
            return Err(Error::InvalidInputData);
        }
        let reg = get_register_on(channel);
        let word = value | 0x1000;
        self.write_double_register(reg, word)
    }

    /// Forces the channel fully off by writing the fixed word `0x1000` to
    /// the off-register pair, clearing any stored off-value.
    ///
    /// No input is validated because none is taken. The override is
    /// cleared by writing the off-counter again.
    pub fn set_channel_full_off(&mut self, channel: Channel) -> (result: Result<
        (),
        Error<B::BusError>,
    >)
        ensures
            final(self).address == old(self).address,
            match result {
                Ok(()) => final(self).bus.history() == old(self).bus.history().push(
                    (BusOperation::Write {
                        address: old(self).address,
                        bytes: double_register_write(off_register(channel), 0x1000),
                    }),
                ),
                Err(e) => e is I2C && final(self).bus.history() == old(self).bus.history(),
            },
    {
        let reg = get_register_off(channel);
        self.write_double_register(reg, 0x1000)
    }

    /// Sets every channel's on- and off-counters in one 65-byte
    /// transaction: channel 0's on-low register address followed by all 16
    /// channels' counter bytes, relying on auto-increment addressing,
    /// which the operation enables first.
    ///
    /// Index `i` of each bank addresses channel `i`. The whole batch is
    /// validated before any transaction: one value over 4095 and nothing
    /// is issued, neither the enable nor the write.
    pub fn set_all_on_off(&mut self, on: &[u16; 16], off: &[u16; 16]) -> (result: Result<
        (),
        Error<B::BusError>,
    >)
        ensures
            final(self).address == old(self).address,
            !all_values_valid(on@, off@) ==> (result matches Err(Error::InvalidInputData)) && final(self).bus.history() == old(self).bus.history(),
            all_values_valid(on@, off@) ==> match result {
                Ok(()) => final(self).bus.history() == old(self).bus.history().push(
                    BusOperation::EnableAutoIncrement,
                ).push(
                    (BusOperation::Write {
                        address: old(self).address,
                        bytes: all_channels_write(on@, off@),
                    }),
                ),
                Err(e) => e is I2C && (final(self).bus.history() == old(self).bus.history() || final(self).bus.history() == old(self).bus.history().push(
                    BusOperation::EnableAutoIncrement,
                )),
            },
    {
        let mut bytes: Vec<u8> = Vec::new();
        bytes.push(C0_ON_L);
        let mut i: usize = 0;
        while i < 16
            invariant
                i <= 16,
                bytes@ == seq![C0_ON_L] + interleaved_blocks(
                    on@,
                    off@,
                    i as int,
                ),
                forall|k: int| 0 <= k < i ==> on@[k] <= 4095 && off@[k] <= 4095,
            decreases 16 - i,
        {
            let on_value = on[i];
            let off_value = off[i];
            if on_value > 4095 || off_value > 4095 {
                return Err(Error::InvalidInputData);
            }
            bytes.push((on_value & 0xff) as u8);
            bytes.push((on_value >> 8) as u8);
            bytes.push((off_value & 0xff) as u8);
            bytes.push((off_value >> 8) as u8);
            proof {
                lemma_interleaved_blocks_len(on@, off@, i as int);
                assert(bytes@ =~= seq![C0_ON_L] + interleaved_blocks(
                    on@,
                    off@,
                    i + 1,
                ));
            }
            i = i + 1;
        }
        proof {
            assert(bytes@ == all_channels_write(on@, off@));
        }
        match self.bus.enable_auto_increment() {
            Ok(()) => {},
            Err(e) => {
                return Err(Error::I2C(e));
            },
        }
        match self.bus.write(self.address, &bytes) {
            Ok(()) => Ok(()),
            Err(e) => Err(Error::I2C(e)),
        }
    }
}

} // verus!
