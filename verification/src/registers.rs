//! The channel-to-register map of the PCA9685.
//!
//! Each of the 16 channels owns two 16-bit counters (on and off), each
//! stored as a low/high byte pair of consecutive 8-bit registers. The pairs
//! form an arithmetic progression: channel `i`'s on-low register sits at
//! `0x06 + 4 * i`, its off-low register two bytes later. A separate
//! broadcast pair at `0xfa`/`0xfc` addresses every channel at once.

use vstd::prelude::*;

verus! {

/// A PWM output of the controller: one of the 16 physical channels, or the
/// broadcast pseudo-channel that targets every channel in one write.
#[derive(Debug, Clone, Copy, PartialEq, Eq, Structural)]
pub enum Channel {
    C0,
    C1,
    C2,
    C3,
    C4,
    C5,
    C6,
    C7,
    C8,
    C9,
    C10,
    C11,
    C12,
    C13,
    C14,
    C15,
    All,
}

/// Low byte of channel 0's on-counter: the first register of the per-channel
/// progression and the starting address of a whole-bank update.
pub const C0_ON_L: u8 = 0x06;

/// Low byte of the broadcast on-counter.
pub const ALL_C_ON_L: u8 = 0xfa;

/// Low byte of the broadcast off-counter.
pub const ALL_C_OFF_L: u8 = 0xfc;

/// Ordinal of a channel: 0 through 15 for the physical channels, 16 for the
/// broadcast pseudo-channel.
pub open spec fn channel_index(channel: Channel) -> int {
    match channel {
        Channel::C0 => 0,
        Channel::C1 => 1,
        Channel::C2 => 2,
        Channel::C3 => 3,
        Channel::C4 => 4,
        Channel::C5 => 5,
        Channel::C6 => 6,
        Channel::C7 => 7,
        Channel::C8 => 8,
        Channel::C9 => 9,
        Channel::C10 => 10,
        Channel::C11 => 11,
        Channel::C12 => 12,
        Channel::C13 => 13,
        Channel::C14 => 14,
        Channel::C15 => 15,
        Channel::All => 16,
    }
}

/// Address of the low byte of the channel's on-counter register pair.
pub open spec fn on_register(channel: Channel) -> u8 {
    match channel {
        Channel::C0 => 0x06,
        Channel::C1 => 0x0a,
        Channel::C2 => 0x0e,
        Channel::C3 => 0x12,
        Channel::C4 => 0x16,
        Channel::C5 => 0x1a,
        Channel::C6 => 0x1e,
        Channel::C7 => 0x22,
        Channel::C8 => 0x26,
        Channel::C9 => 0x2a,
        Channel::C10 => 0x2e,
        Channel::C11 => 0x32,
        Channel::C12 => 0x36,
        Channel::C13 => 0x3a,
        Channel::C14 => 0x3e,
        Channel::C15 => 0x42,
        Channel::All => 0xfa,
    }
}

/// Address of the low byte of the channel's off-counter register pair.
pub open spec fn off_register(channel: Channel) -> u8 {
    match channel {
        Channel::C0 => 0x08,
        Channel::C1 => 0x0c,
        Channel::C2 => 0x10,
        Channel::C3 => 0x14,
        Channel::C4 => 0x18,
        Channel::C5 => 0x1c,
        Channel::C6 => 0x20,
        Channel::C7 => 0x24,
        Channel::C8 => 0x28,
        Channel::C9 => 0x2c,
        Channel::C10 => 0x30,
        Channel::C11 => 0x34,
        Channel::C12 => 0x38,
        Channel::C13 => 0x3c,
        Channel::C14 => 0x40,
        Channel::C15 => 0x44,
        Channel::All => 0xfc,
    }
}

/// Resolves a channel to the low byte of its on-counter register pair.
pub fn get_register_on(channel: Channel) -> (reg: u8)
    ensures
        reg == on_register(channel),
{
    match channel {
        Channel::C0 => 0x06,
        Channel::C1 => 0x0a,
        Channel::C2 => 0x0e,
        Channel::C3 => 0x12,
        Channel::C4 => 0x16,
        Channel::C5 => 0x1a,
        Channel::C6 => 0x1e,
        Channel::C7 => 0x22,
        Channel::C8 => 0x26,
        Channel::C9 => 0x2a,
        Channel::C10 => 0x2e,
        Channel::C11 => 0x32,
        Channel::C12 => 0x36,
        Channel::C13 => 0x3a,
        Channel::C14 => 0x3e,
        Channel::C15 => 0x42,
        Channel::All => 0xfa,
    }
}

/// Resolves a channel to the low byte of its off-counter register pair.
pub fn get_register_off(channel: Channel) -> (reg: u8)
    ensures
        reg == off_register(channel),
{
    match channel {
        Channel::C0 => 0x08,
        Channel::C1 => 0x0c,
        Channel::C2 => 0x10,
        Channel::C3 => 0x14,
        Channel::C4 => 0x18,
        Channel::C5 => 0x1c,
        Channel::C6 => 0x20,
        Channel::C7 => 0x24,
        Channel::C8 => 0x28,
        Channel::C9 => 0x2c,
        Channel::C10 => 0x30,
        Channel::C11 => 0x34,
        Channel::C12 => 0x38,
        Channel::C13 => 0x3c,
        Channel::C14 => 0x40,
        Channel::C15 => 0x44,
        Channel::All => 0xfc,
    }
}

/// The register map never aliases: distinct channels get distinct on and
/// distinct off addresses, and no channel's on address coincides with any
/// channel's off address.
pub proof fn lemma_register_map_injective(a: Channel, b: Channel)
    ensures
        on_register(a) != off_register(b),
        a != b ==> on_register(a) != on_register(b),
        a != b ==> off_register(a) != off_register(b),
{
}

/// The explicit register table agrees with the arithmetic derivation: each
/// physical channel's on-low register sits 4 bytes per channel index past
/// channel 0's, every off-low register sits 2 bytes past the matching
/// on-low register, and the broadcast pair lives at its own fixed base
/// outside the progression.
pub proof fn lemma_register_progression(channel: Channel)
    ensures
        channel != Channel::All ==> on_register(channel) == C0_ON_L + 4 * channel_index(channel),
        off_register(channel) == on_register(channel) + 2,
        on_register(Channel::All) == ALL_C_ON_L,
        off_register(Channel::All) == ALL_C_OFF_L,
{
}

} // verus!
