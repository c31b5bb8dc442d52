//! Audio input: devices, the capture session and the silence timer.

pub mod capture;
pub mod devices;
pub mod processing;

use vstd::prelude::*;

verus! {

/// Bit pattern of zero amplitude.
pub const ZERO_AMPLITUDE_BITS: u32 = 0x0000_0000;

/// Bit pattern of the decibel floor, sixty below full scale.
pub const DB_FLOOR_BITS: u32 = 0xC270_0000;

/// One audio input endpoint as the operating system reported it.
#[derive(Debug, Clone, PartialEq, Eq)]
pub struct AudioDeviceInfo {
    pub id: String,
    pub name: String,
    pub is_default: bool,
}

/// One level reading. Each field holds an IEEE 754 single-precision value as
/// its bit pattern, so that a reading passes through the session unchanged.
#[derive(Debug, Clone, Copy, PartialEq, Eq, Structural)]
pub struct AudioLevelInfo {
    pub rms_bits: u32,
    pub peak_bits: u32,
    pub db_bits: u32,
}

impl AudioLevelInfo {
    /// The reading of a session that has not heard anything yet: no
    /// amplitude, decibels at the floor.
    pub open spec fn quiet() -> Self {
        AudioLevelInfo {
            rms_bits: ZERO_AMPLITUDE_BITS,
            peak_bits: ZERO_AMPLITUDE_BITS,
            db_bits: DB_FLOOR_BITS,
        }
    }
}

impl Default for AudioLevelInfo {
    fn default() -> (level: Self)
        ensures
            level == AudioLevelInfo::quiet(),
    {
        AudioLevelInfo {
            rms_bits: ZERO_AMPLITUDE_BITS,
            peak_bits: ZERO_AMPLITUDE_BITS,
            db_bits: DB_FLOOR_BITS,
        }
    }
}

/// Stream parameters, fixed when a session starts.
#[derive(Debug, Clone, Copy, PartialEq, Eq, Structural)]
pub struct AudioConfig {
    pub sample_rate: u32,
    pub channels: u16,
    pub bit_depth: u16,
    pub buffer_size: usize,
}

impl Default for AudioConfig {
    fn default() -> (config: Self)
        ensures
            config.sample_rate == 16000,
            config.channels == 1,
            config.bit_depth == 16,
            config.buffer_size == 4096,
    {
        AudioConfig { sample_rate: 16000, channels: 1, bit_depth: 16, buffer_size: 4096 }
    }
}

} // verus!
