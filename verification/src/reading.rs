//! The structured result of decoding one meter telegram.
//!
//! Every quantity the meter reports as a decimal number is carried as the
//! IEEE-754 bit pattern of that number, an opaque `u64`: the store passes
//! meter values through unchanged and never computes with them, so the bit
//! pattern is all it needs.

use vstd::prelude::*;

verus! {

/// One of the meter's two billing registers, selected by time of day.
#[derive(Clone, Copy, Debug, PartialEq, Eq, Structural)]
pub enum Tariff {
    Low,
    High,
}

/// The device-type code with which a sub-device announces a gas meter.
pub const GAS_DEVICE_TYPE: u64 = 3;

/// A cumulative reading reported by an auxiliary meter (gas, water, heat)
/// attached to the same data feed.
#[derive(Clone, Copy, Debug, PartialEq, Eq)]
pub struct SubDevice {
    /// Device-type code; a gas meter reports `GAS_DEVICE_TYPE`.
    pub device_type: Option<u64>,
    /// Cumulative volume, as the bit pattern of the reported value.
    pub meter_reading: Option<u64>,
}

/// The fields one telegram populates. An absent field means "no update this
/// cycle", never "reset to zero".
///
/// Energy registers are split by tariff: `delivered` is energy delivered to
/// the customer (consumed), `received` is energy the customer fed back
/// (produced).
#[derive(Clone, Debug, PartialEq)]
pub struct Reading {
    /// Instantaneous power drawn from the grid, in kW.
    pub power_delivered: Option<u64>,
    /// Instantaneous power fed back into the grid, in kW.
    pub power_received: Option<u64>,
    /// Cumulative energy delivered to the customer, low-tariff register, kWh.
    pub energy_delivered_low: Option<u64>,
    /// Cumulative energy delivered to the customer, high-tariff register, kWh.
    pub energy_delivered_high: Option<u64>,
    /// Cumulative energy received from the customer, low-tariff register, kWh.
    pub energy_received_low: Option<u64>,
    /// Cumulative energy received from the customer, high-tariff register, kWh.
    pub energy_received_high: Option<u64>,
    /// The raw two-byte tariff-indicator code: `[0, 1]` selects the low
    /// register, `[0, 2]` the high one; other codes identify no register.
    pub tariff_indicator: Option<[u8; 2]>,
    /// Readings of the attached sub-devices, in the order the telegram
    /// carries them.
    pub sub_devices: Vec<SubDevice>,
}

impl Reading {
    /// A reading that populates nothing and so updates nothing.
    pub fn empty() -> (r: Reading)
        ensures
            r.power_delivered is None,
            r.power_received is None,
            r.energy_delivered_low is None,
            r.energy_delivered_high is None,
            r.energy_received_low is None,
            r.energy_received_high is None,
            r.tariff_indicator is None,
            r.sub_devices@ =~= Seq::<SubDevice>::empty(),
    {
        Reading {
            power_delivered: None,
            power_received: None,
            energy_delivered_low: None,
            energy_delivered_high: None,
            energy_received_low: None,
            energy_received_high: None,
            tariff_indicator: None,
            sub_devices: Vec::new(),
        }
    }
}

/// Why a telegram could not be decoded into a `Reading`: the frame was
/// malformed, its checksum did not verify, or a field could not be
/// interpreted. Alignment of the byte stream cannot be trusted past such a
/// failure, so the connection it came from is abandoned.
#[derive(Clone, Copy, Debug, PartialEq, Eq, Structural)]
pub enum DecodeError {
    Malformed,
}

} // verus!
