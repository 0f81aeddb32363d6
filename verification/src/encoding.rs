//! Byte-level encoding of counter values and bus payloads.
//!
//! A counter value is a 12-bit position in the 4096-step cycle, stored as a
//! 16-bit word split into a low byte and a high byte written to consecutive
//! registers. Bit 12 of the word is the full-on / full-off override flag;
//! it rides alongside the 12-bit value in the same word.

use vstd::prelude::*;

use crate::registers::C0_ON_L;

verus! {

/// Low byte of a 16-bit counter word.
pub open spec fn low_byte(word: u16) -> u8 {
    (word & 0xff) as u8
}

/// High byte of a 16-bit counter word.
pub open spec fn high_byte(word: u16) -> u8 {
    (word >> 8) as u8
}

/// The 16-bit word stored as a little-endian byte pair.
pub open spec fn word_of_bytes(low: u8, high: u8) -> u16 {
    (low + high * 256) as u16
}

/// The 12-bit counter position held in a little-endian byte pair, with the
/// override flag (bit 12) and the unused top bits masked off.
pub open spec fn counter_of_bytes(low: u8, high: u8) -> u16 {
    word_of_bytes(low, high) & 0x0fff
}

/// Payload of a write that fills one low/high register pair: the pair's
/// starting address followed by the word's two bytes.
pub open spec fn double_register_write(reg: u8, word: u16) -> Seq<u8> {
    seq![reg, low_byte(word), high_byte(word)]
}

/// Payload of a write that fills two consecutive register pairs in one
/// transaction, relying on the device's sequential register advance.
pub open spec fn two_double_register_write(reg: u8, first: u16, second: u16) -> Seq<u8> {
    seq![reg, low_byte(first), high_byte(first), low_byte(second), high_byte(second)]
}

/// The first `n` channels' counter bytes, interleaved in channel order:
/// on-low, on-high, off-low, off-high for channel 0, then channel 1, and
/// so on.
pub open spec fn interleaved_blocks(on: Seq<u16>, off: Seq<u16>, n: int) -> Seq<u8>
    decreases n,
{
    if n <= 0 {
        Seq::empty()
    } else {
        interleaved_blocks(on, off, n - 1) + seq![
            low_byte(on[n - 1]),
            high_byte(on[n - 1]),
            low_byte(off[n - 1]),
            high_byte(off[n - 1]),
        ]
    }
}

/// Payload of the whole-bank update: channel 0's on-low register address
/// followed by all 16 channels' counter bytes, 65 bytes in all.
pub open spec fn all_channels_write(on: Seq<u16>, off: Seq<u16>) -> Seq<u8> {
    seq![C0_ON_L] + interleaved_blocks(on, off, 16)
}

/// The interleaved block of `n` channels holds 4 bytes per channel.
pub proof fn lemma_interleaved_blocks_len(on: Seq<u16>, off: Seq<u16>, n: int)
    requires
        0 <= n,
    ensures
        interleaved_blocks(on, off, n).len() == 4 * n,
    decreases n,
{
    if n > 0 {
        lemma_interleaved_blocks_len(on, off, n - 1);
    }
}

proof fn lemma_interleaved_blocks_index(on: Seq<u16>, off: Seq<u16>, n: int, i: int)
    requires
        0 <= i < n,
    ensures
        interleaved_blocks(on, off, n)[4 * i] == low_byte(on[i]),
        interleaved_blocks(on, off, n)[4 * i + 1] == high_byte(on[i]),
        interleaved_blocks(on, off, n)[4 * i + 2] == low_byte(off[i]),
        interleaved_blocks(on, off, n)[4 * i + 3] == high_byte(off[i]),
    decreases n,
{
    lemma_interleaved_blocks_len(on, off, n - 1);
    if i < n - 1 {
        lemma_interleaved_blocks_index(on, off, n - 1, i);
    }
}

/// Where each channel's bytes stand in the whole-bank payload: byte 0 is
/// channel 0's on-low register address, and channel `i`'s four counter
/// bytes sit at offsets `4 * i + 1` through `4 * i + 4`.
pub proof fn lemma_all_channels_write_index(on: Seq<u16>, off: Seq<u16>, i: int)
    requires
        0 <= i < 16,
    ensures
        all_channels_write(on, off).len() == 65,
        all_channels_write(on, off)[0] == C0_ON_L,
        all_channels_write(on, off)[4 * i + 1] == low_byte(on[i]),
        all_channels_write(on, off)[4 * i + 2] == high_byte(on[i]),
        all_channels_write(on, off)[4 * i + 3] == low_byte(off[i]),
        all_channels_write(on, off)[4 * i + 4] == high_byte(off[i]),
{
    lemma_interleaved_blocks_len(on, off, 16);
    lemma_interleaved_blocks_index(on, off, 16, i);
}

/// Splitting a word into its byte pair and reading the pair back yields the
/// word, for every 16-bit word.
pub proof fn lemma_word_round_trip(word: u16)
    ensures
        word_of_bytes(low_byte(word), high_byte(word)) == word,
{
    assert(((word & 0xff) as u8 + ((word >> 8) as u8) * 256) as u16 == word) by (bit_vector);
}

/// Encoding a valid 12-bit counter value and decoding the byte pair yields
/// the value again; the override flag (bit 12) stays clear in the encoded
/// word.
pub proof fn lemma_counter_round_trip(value: u16)
    requires
        value <= 4095,
    ensures
        counter_of_bytes(low_byte(value), high_byte(value)) == value,
        word_of_bytes(low_byte(value), high_byte(value)) == value,
        value & 0x1000 == 0,
{
    assert((((value & 0xff) as u8 + ((value >> 8) as u8) * 256) as u16) & 0x0fff == value)
        by (bit_vector)
        requires
            value <= 4095,
    ;
    assert(((value & 0xff) as u8 + ((value >> 8) as u8) * 256) as u16 == value) by (bit_vector);
    assert(value & 0x1000 == 0) by (bit_vector)
        requires
            value <= 4095,
    ;
}

/// The full-on encoding keeps the 12-bit value in the low bits beside the
/// set override flag: the written word is exactly `value | 0x1000`, its
/// counter bits still decode to `value`, and bit 12 is set.
pub proof fn lemma_full_on_word(value: u16)
    requires
        value <= 4095,
    ensures
        word_of_bytes(low_byte(value | 0x1000), high_byte(value | 0x1000)) == value | 0x1000,
        counter_of_bytes(low_byte(value | 0x1000), high_byte(value | 0x1000)) == value,
        (value | 0x1000) & 0x1000 == 0x1000,
{
    lemma_word_round_trip(value | 0x1000);
    assert((value | 0x1000) & 0x0fff == value) by (bit_vector)
        requires
            value <= 4095,
    ;
    assert((value | 0x1000) & 0x1000 == 0x1000) by (bit_vector);
}

/// Reads the 16-bit word out of a little-endian register byte pair.
pub fn decode_word(low: u8, high: u8) -> (word: u16)
    ensures
        word == word_of_bytes(low, high),
{
    let word: u16 = (low as u16) | ((high as u16) << 8);
    proof {
        assert((low as u16) | ((high as u16) << 8) == (low + high * 256) as u16) by (bit_vector);
    }
    word
}

/// Reads the 12-bit counter position out of a little-endian register byte
/// pair, ignoring the override flag and the unused top bits.
pub fn decode_counter(low: u8, high: u8) -> (value: u16)
    ensures
        value == counter_of_bytes(low, high),
        value <= 4095,
{
    let value: u16 = decode_word(low, high) & 0x0fff;
    proof {
        let w = word_of_bytes(low, high);
        assert(w & 0x0fff <= 4095) by (bit_vector);
    }
    value
}

} // verus!
