//! Driver core for the PCA9685 16-channel, 12-bit PWM controller.
//!
//! The driver translates logical channel operations (turn a channel on or
//! off at a point in the 4096-step cycle, force it fully on or off, update
//! every channel in one transaction) into the register addresses and byte
//! payloads the chip expects, validating all counter values before any bus
//! transaction is issued.

mod bus;
mod channels;
mod encoding;
mod registers;

pub use bus::{BusOperation, I2cBus, RecordedOperation, RecordingBus};
pub use channels::{all_values_valid, Error, Pca9685};
pub use encoding::{
    all_channels_write, counter_of_bytes, decode_counter, decode_word, double_register_write,
    high_byte, interleaved_blocks, lemma_all_channels_write_index, lemma_counter_round_trip,
    lemma_full_on_word, lemma_interleaved_blocks_len, lemma_word_round_trip, low_byte,
    two_double_register_write,
    word_of_bytes,
};
pub use registers::{
    channel_index, get_register_off, get_register_on, lemma_register_map_injective,
    lemma_register_progression, off_register, on_register, Channel, ALL_C_OFF_L, ALL_C_ON_L,
    C0_ON_L,
};
