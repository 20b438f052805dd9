//! The metrics store: the last-known value of every exposed metric.
//!
//! The store is a plain mapping from metric identity to current value. It is
//! written only by the collector, one field at a time, and read by the
//! exporter through `snapshot`; every update overwrites unconditionally,
//! never blocks and never fails. Counters hold the meter's absolute
//! cumulative value, passed through unchanged.

use vstd::prelude::*;

use crate::reading::{Reading, SubDevice, Tariff, GAS_DEVICE_TYPE};

verus! {

/// The identity of one independently updated scalar metric.
#[derive(Clone, Copy, Debug, PartialEq, Eq, Structural)]
pub enum MetricField {
    PowerConsumedKw,
    PowerProducedKw,
    EnergyConsumedKwh(Tariff),
    EnergyProducedKwh(Tariff),
    GasConsumedM3,
}

/// The aggregate of the latest known readings. Every field starts out unset
/// and afterwards holds the most recently observed value that populated it.
///
/// Values are carried as the bit patterns of the meter's decimal numbers;
/// see `crate::reading`.
#[derive(Clone, Copy, Debug, PartialEq)]
pub struct MetricsStore {
    /// Instantaneous power drawn from the grid, kW.
    pub power_consumed_kw: Option<u64>,
    /// Instantaneous power fed back into the grid, kW.
    pub power_produced_kw: Option<u64>,
    /// Cumulative energy consumed, low-tariff register, kWh.
    pub energy_consumed_kwh_low: Option<u64>,
    /// Cumulative energy consumed, high-tariff register, kWh.
    pub energy_consumed_kwh_high: Option<u64>,
    /// Cumulative energy produced, low-tariff register, kWh.
    pub energy_produced_kwh_low: Option<u64>,
    /// Cumulative energy produced, high-tariff register, kWh.
    pub energy_produced_kwh_high: Option<u64>,
    /// The register currently billing: exactly one, or none before the
    /// first observation. Holding it as at most one `Tariff` makes the
    /// indicator slots mutually exclusive by construction.
    pub active_tariff: Option<Tariff>,
    /// Cumulative gas volume, m^3; one global counter, no tariff keying.
    pub gas_consumed_m3: Option<u64>,
}

/// The store every process starts from: all fields unset.
pub open spec fn unset_store() -> MetricsStore {
    MetricsStore {
        power_consumed_kw: None,
        power_produced_kw: None,
        energy_consumed_kwh_low: None,
        energy_consumed_kwh_high: None,
        energy_produced_kwh_low: None,
        energy_produced_kwh_high: None,
        active_tariff: None,
        gas_consumed_m3: None,
    }
}

/// The store after one field is overwritten; every other field is kept.
pub open spec fn spec_update(s: MetricsStore, field: MetricField, value: u64) -> MetricsStore {
    match field {
        MetricField::PowerConsumedKw => (MetricsStore { power_consumed_kw: Some(value), ..s }),
        MetricField::PowerProducedKw => (MetricsStore { power_produced_kw: Some(value), ..s }),
        MetricField::EnergyConsumedKwh(Tariff::Low) => (MetricsStore {
            energy_consumed_kwh_low: Some(value),
            ..s
        }),
        MetricField::EnergyConsumedKwh(Tariff::High) => (MetricsStore {
            energy_consumed_kwh_high: Some(value),
            ..s
        }),
        MetricField::EnergyProducedKwh(Tariff::Low) => (MetricsStore {
            energy_produced_kwh_low: Some(value),
            ..s
        }),
        MetricField::EnergyProducedKwh(Tariff::High) => (MetricsStore {
            energy_produced_kwh_high: Some(value),
            ..s
        }),
        MetricField::GasConsumedM3 => (MetricsStore { gas_consumed_m3: Some(value), ..s }),
    }
}

/// A populated field replaces the stored value; an absent one keeps it.
pub open spec fn updated(new: Option<u64>, current: Option<u64>) -> Option<u64> {
    if new is Some {
        new
    } else {
        current
    }
}

/// The billing register a tariff-indicator code selects, if it selects one.
pub open spec fn tariff_of_code(code: [u8; 2]) -> Option<Tariff> {
    if code[0] == 0 && code[1] == 1 {
        Some(Tariff::Low)
    } else if code[0] == 0 && code[1] == 2 {
        Some(Tariff::High)
    } else {
        None
    }
}

/// The active register after a telegram: a recognized indicator code moves
/// it, an absent or unrecognized one keeps it.
pub open spec fn tariff_after(indicator: Option<[u8; 2]>, current: Option<Tariff>) -> Option<
    Tariff,
> {
    match indicator {
        Some(code) => match tariff_of_code(code) {
            Some(t) => Some(t),
            None => current,
        },
        None => current,
    }
}

/// Whether one sub-device reading updates the gas counter: it must announce
/// a gas meter and carry a value.
pub open spec fn is_gas_update(d: SubDevice) -> bool {
    d.device_type == Some(GAS_DEVICE_TYPE) && d.meter_reading is Some
}

/// The gas counter after the sub-device readings of one telegram are applied
/// in order: the last gas-meter reading with a value wins; readings of other
/// device types never touch the counter.
pub open spec fn gas_after(devices: Seq<SubDevice>, current: Option<u64>) -> Option<u64>
    decreases devices.len(),
{
    if devices.len() == 0 {
        current
    } else if is_gas_update(devices.last()) {
        devices.last().meter_reading
    } else {
        gas_after(devices.drop_last(), current)
    }
}

/// The store after one whole `Reading` is applied: every populated field is
/// overwritten, every unpopulated one is left untouched.
pub open spec fn spec_apply(s: MetricsStore, r: Reading) -> MetricsStore {
    MetricsStore {
        power_consumed_kw: updated(r.power_delivered, s.power_consumed_kw),
        power_produced_kw: updated(r.power_received, s.power_produced_kw),
        energy_consumed_kwh_low: updated(r.energy_delivered_low, s.energy_consumed_kwh_low),
        energy_consumed_kwh_high: updated(r.energy_delivered_high, s.energy_consumed_kwh_high),
        energy_produced_kwh_low: updated(r.energy_received_low, s.energy_produced_kwh_low),
        energy_produced_kwh_high: updated(r.energy_received_high, s.energy_produced_kwh_high),
        active_tariff: tariff_after(r.tariff_indicator, s.active_tariff),
        gas_consumed_m3: gas_after(r.sub_devices@, s.gas_consumed_m3),
    }
}

/// What `energy_consumed_kwh` reads for one register.
pub open spec fn spec_energy_consumed_kwh(s: MetricsStore, tariff: Tariff) -> Option<u64> {
    if tariff is Low {
        s.energy_consumed_kwh_low
    } else {
        s.energy_consumed_kwh_high
    }
}

/// The 0/1 value of one slot of the mutually exclusive tariff indicator.
pub open spec fn spec_active_tariff_value(s: MetricsStore, tariff: Tariff) -> u64 {
    if s.active_tariff == Some(tariff) {
        1u64
    } else {
        0u64
    }
}

impl MetricsStore {
    /// The store a process starts with: created once, all fields unset.
    pub fn new() -> (s: MetricsStore)
        ensures
            s == unset_store(),
    {
        MetricsStore {
            power_consumed_kw: None,
            power_produced_kw: None,
            energy_consumed_kwh_low: None,
            energy_consumed_kwh_high: None,
            energy_produced_kwh_low: None,
            energy_produced_kwh_high: None,
            active_tariff: None,
            gas_consumed_m3: None,
        }
    }

    /// Unconditionally overwrite the named field; never blocks, never fails,
    /// and leaves every other field untouched.
    pub fn update(&mut self, field: MetricField, value: u64)
        ensures
            *final(self) == spec_update(*old(self), field, value),
    {
        match field {
            MetricField::PowerConsumedKw => {
                self.power_consumed_kw = Some(value);
            },
            MetricField::PowerProducedKw => {
                self.power_produced_kw = Some(value);
            },
            MetricField::EnergyConsumedKwh(Tariff::Low) => {
                self.energy_consumed_kwh_low = Some(value);
            },
            MetricField::EnergyConsumedKwh(Tariff::High) => {
                self.energy_consumed_kwh_high = Some(value);
            },
            MetricField::EnergyProducedKwh(Tariff::Low) => {
                self.energy_produced_kwh_low = Some(value);
            },
            MetricField::EnergyProducedKwh(Tariff::High) => {
                self.energy_produced_kwh_high = Some(value);
            },
            MetricField::GasConsumedM3 => {
                self.gas_consumed_m3 = Some(value);
            },
        }
    }

    /// Make the given register the one active slot: its indicator reads 1,
    /// every other slot reads 0, until the next call.
    pub fn set_active_tariff(&mut self, tariff: Tariff)
        ensures
            final(self).active_tariff == Some(tariff),
            *final(self) == (MetricsStore { active_tariff: Some(tariff), ..*old(self) }),
    {
        self.active_tariff = Some(tariff);
    }

    /// The 0/1 indicator value of one tariff slot.
    pub fn active_tariff_value(&self, tariff: Tariff) -> (r: u64)
        ensures
            r == spec_active_tariff_value(*self, tariff),
    {
        match self.active_tariff {
            Some(t) => if t == tariff {
                1
            } else {
                0
            },
            None => 0,
        }
    }

    /// The energy-consumed counter of one tariff register.
    pub fn energy_consumed_kwh(&self, tariff: Tariff) -> (r: Option<u64>)
        ensures
            r == spec_energy_consumed_kwh(*self, tariff),
    {
        match tariff {
            Tariff::Low => self.energy_consumed_kwh_low,
            Tariff::High => self.energy_consumed_kwh_high,
        }
    }

    /// The energy-produced counter of one tariff register.
    pub fn energy_produced_kwh(&self, tariff: Tariff) -> (r: Option<u64>)
        ensures
            r == (if tariff is Low {
                self.energy_produced_kwh_low
            } else {
                self.energy_produced_kwh_high
            }),
    {
        match tariff {
            Tariff::Low => self.energy_produced_kwh_low,
            Tariff::High => self.energy_produced_kwh_high,
        }
    }

    /// A point-in-time copy of all fields for encoding. No isolation across
    /// fields beyond this copy is promised.
    pub fn snapshot(&self) -> (r: MetricsStore)
        ensures
            r == *self,
    {
        *self
    }

    /// Fold one decoded `Reading` into the store: overwrite every populated
    /// field, leave every unpopulated one untouched.
    pub fn apply_reading(&mut self, reading: &Reading)
        ensures
            *final(self) == spec_apply(*old(self), *reading),
    {
        if let Some(v) = reading.power_delivered {
            self.update(MetricField::PowerConsumedKw, v);
        }
        if let Some(v) = reading.power_received {
            self.update(MetricField::PowerProducedKw, v);
        }
        if let Some(v) = reading.energy_delivered_low {
            self.update(MetricField::EnergyConsumedKwh(Tariff::Low), v);
        }
        if let Some(v) = reading.energy_delivered_high {
            self.update(MetricField::EnergyConsumedKwh(Tariff::High), v);
        }
        if let Some(v) = reading.energy_received_low {
            self.update(MetricField::EnergyProducedKwh(Tariff::Low), v);
        }
        if let Some(v) = reading.energy_received_high {
            self.update(MetricField::EnergyProducedKwh(Tariff::High), v);
        }
        if let Some(code) = reading.tariff_indicator {
            if code[0] == 0 && code[1] == 1 {
                self.set_active_tariff(Tariff::Low);
            } else if code[0] == 0 && code[1] == 2 {
                self.set_active_tariff(Tariff::High);
            }
        }
        let ghost mid = *self;
        let devices = &reading.sub_devices;
        let mut i: usize = 0;
        while i < devices.len()
            invariant
                i <= devices@.len(),
                devices@ == reading.sub_devices@,
                *self == (MetricsStore {
                    gas_consumed_m3: gas_after(devices@.take(i as int), mid.gas_consumed_m3),
                    ..mid
                }),
            decreases devices@.len() - i,
        {
            let d = devices[i];
            let announces_gas = match d.device_type {
                Some(code) => code == GAS_DEVICE_TYPE,
                None => false,
            };
            if announces_gas {
                if let Some(v) = d.meter_reading {
                    self.update(MetricField::GasConsumedM3, v);
                }
            }
            proof {
                let pre = devices@.take(i as int);
                let post = devices@.take(i as int + 1);
                assert(post.last() == devices@[i as int]);
                assert(post.drop_last() =~= pre);
            }
            i = i + 1;
        }
        proof {
            assert(devices@.take(devices@.len() as int) =~= devices@);
        }
    }
}

/// Tariff-indicator exclusivity: while one register is the active one, its
/// indicator slot reads 1 and every other slot reads 0. `set_active_tariff`
/// establishes the premise, and only `set_active_tariff` and `apply_reading`
/// move `active_tariff`, so this holds for every read until the next call.
pub proof fn lemma_active_tariff_exclusive(s: MetricsStore, tariff: Tariff)
    requires
        s.active_tariff == Some(tariff),
    ensures
        spec_active_tariff_value(s, tariff) == 1,
        forall|other: Tariff| other != tariff ==> spec_active_tariff_value(s, other) == 0,
{
}

/// The gas counter is moved only by a sub-device reading that announces a
/// gas meter and carries a value: a telegram whose sub-device readings all
/// come from other device types leaves the counter exactly as it was.
pub proof fn lemma_gas_kept_without_gas_device(devices: Seq<SubDevice>, current: Option<u64>)
    requires
        forall|i: int| 0 <= i < devices.len() ==> !is_gas_update(devices[i]),
    ensures
        gas_after(devices, current) == current,
    decreases devices.len(),
{
    if devices.len() > 0 {
        assert(!is_gas_update(devices.last()));
        assert forall|i: int| 0 <= i < devices.drop_last().len() implies !is_gas_update(
            devices.drop_last()[i],
        ) by {
            assert(devices.drop_last()[i] == devices[i]);
        }
        lemma_gas_kept_without_gas_device(devices.drop_last(), current);
    }
}

/// Whenever the gas counter does move, the new value is the reading of one
/// of the telegram's sub-devices that announced a gas meter: the counter
/// never takes a value from any other device type.
pub proof fn lemma_gas_value_is_a_gas_reading(devices: Seq<SubDevice>, current: Option<u64>)
    ensures
        gas_after(devices, current) == current || exists|i: int|
            0 <= i < devices.len() && is_gas_update(devices[i]) && gas_after(devices, current)
                == devices[i].meter_reading,
    decreases devices.len(),
{
    if devices.len() > 0 {
        if is_gas_update(devices.last()) {
            let ghost w = devices.len() - 1;
            assert(0 <= w < devices.len() && is_gas_update(devices[w]) && gas_after(
                devices,
                current,
            ) == devices[w].meter_reading);
        } else {
            lemma_gas_value_is_a_gas_reading(devices.drop_last(), current);
            if gas_after(devices.drop_last(), current) != current {
                let w = choose|i: int|
                    0 <= i < devices.drop_last().len() && is_gas_update(devices.drop_last()[i])
                        && gas_after(devices.drop_last(), current)
                        == devices.drop_last()[i].meter_reading;
                assert(devices.drop_last()[w] == devices[w]);
                assert(0 <= w < devices.len() && is_gas_update(devices[w]) && gas_after(
                    devices,
                    current,
                ) == devices[w].meter_reading);
            }
        }
    }
}

/// Fields a reading does not populate are left untouched: applying a
/// reading updates every populated field independently and nothing else.
pub proof fn lemma_absent_fields_kept(s: MetricsStore, r: Reading)
    ensures
        r.power_delivered is None ==> spec_apply(s, r).power_consumed_kw == s.power_consumed_kw,
        r.power_received is None ==> spec_apply(s, r).power_produced_kw == s.power_produced_kw,
        r.energy_delivered_low is None ==> spec_apply(s, r).energy_consumed_kwh_low
            == s.energy_consumed_kwh_low,
        r.energy_delivered_high is None ==> spec_apply(s, r).energy_consumed_kwh_high
            == s.energy_consumed_kwh_high,
        r.energy_received_low is None ==> spec_apply(s, r).energy_produced_kwh_low
            == s.energy_produced_kwh_low,
        r.energy_received_high is None ==> spec_apply(s, r).energy_produced_kwh_high
            == s.energy_produced_kwh_high,
        r.tariff_indicator is None ==> spec_apply(s, r).active_tariff == s.active_tariff,
        r.sub_devices@.len() == 0 ==> spec_apply(s, r).gas_consumed_m3 == s.gas_consumed_m3,
{
}

impl Default for MetricsStore {
    /// The same all-unset store `new` builds.
    fn default() -> (s: Self)
        ensures
            s == unset_store(),
    {
        MetricsStore::new()
    }
}

} // verus!
