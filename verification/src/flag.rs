//! Parameter bytes that accompany some of the commands.
use vstd::prelude::*;

verus! {

/// Data entry mode: X and Y address counters both increment.
pub const DATA_ENTRY_INCRY_INCRX: u8 = 0x03;
/// Temperature control: use the internal sensor (power-on default 0x48 selects the external one).
pub const INTERNAL_TEMP_SENSOR: u8 = 0x80;
/// Display update sequence that runs the full refresh from the panel's OTP LUT.
pub const DISPLAY_MODE_1: u8 = 0xF7;
/// Display update sequence that runs the fast differential refresh.
pub const DISPLAY_MODE_2: u8 = 0xFC;
/// Deep sleep mode 1: RAM content is retained.
pub const DEEP_SLEEP_MODE_1: u8 = 0x01;

} // verus!
