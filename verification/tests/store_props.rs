//! Tests of the metrics store: field independence, tariff exclusivity and
//! the gas counter's device gate.

use dsmr_exporter::reading::{Reading, SubDevice, Tariff, GAS_DEVICE_TYPE};
use dsmr_exporter::store::{MetricField, MetricsStore};

fn empty_reading() -> Reading {
    Reading::empty()
}

#[test]
fn new_store_has_all_fields_unset() {
    let s = MetricsStore::new();
    assert_eq!(s.power_consumed_kw, None);
    assert_eq!(s.power_produced_kw, None);
    assert_eq!(s.energy_consumed_kwh_low, None);
    assert_eq!(s.energy_consumed_kwh_high, None);
    assert_eq!(s.energy_produced_kwh_low, None);
    assert_eq!(s.energy_produced_kwh_high, None);
    assert_eq!(s.active_tariff, None);
    assert_eq!(s.gas_consumed_m3, None);
    assert_eq!(MetricsStore::default(), s);
}

#[test]
fn power_reading_updates_exactly_that_gauge() {
    let mut s = MetricsStore::new();
    let mut r = empty_reading();
    r.power_delivered = Some(1.234f64.to_bits());
    s.apply_reading(&r);
    assert_eq!(s.power_consumed_kw, Some(1.234f64.to_bits()));
    assert_eq!(s.power_produced_kw, None);
    assert_eq!(s.energy_consumed_kwh_low, None);
    assert_eq!(s.energy_consumed_kwh_high, None);
    assert_eq!(s.energy_produced_kwh_low, None);
    assert_eq!(s.energy_produced_kwh_high, None);
    assert_eq!(s.active_tariff, None);
    assert_eq!(s.gas_consumed_m3, None);
}

#[test]
fn low_tariff_energy_survives_high_tariff_update() {
    let mut s = MetricsStore::new();
    let mut first = empty_reading();
    first.energy_delivered_low = Some(1000.5f64.to_bits());
    s.apply_reading(&first);
    assert_eq!(s.energy_consumed_kwh_low, Some(1000.5f64.to_bits()));

    let mut second = empty_reading();
    second.energy_delivered_high = Some(2048.75f64.to_bits());
    s.apply_reading(&second);
    assert_eq!(s.energy_consumed_kwh_low, Some(1000.5f64.to_bits()));
    assert_eq!(s.energy_consumed_kwh_high, Some(2048.75f64.to_bits()));
    assert_eq!(s.energy_consumed_kwh(Tariff::Low), Some(1000.5f64.to_bits()));
    assert_eq!(s.energy_consumed_kwh(Tariff::High), Some(2048.75f64.to_bits()));
}

#[test]
fn active_tariff_slots_are_mutually_exclusive() {
    let mut s = MetricsStore::new();
    assert_eq!(s.active_tariff_value(Tariff::Low), 0);
    assert_eq!(s.active_tariff_value(Tariff::High), 0);

    s.set_active_tariff(Tariff::High);
    assert_eq!(s.active_tariff_value(Tariff::High), 1);
    assert_eq!(s.active_tariff_value(Tariff::Low), 0);
    // Reading the slots does not disturb them.
    assert_eq!(s.active_tariff_value(Tariff::High), 1);
    assert_eq!(s.active_tariff_value(Tariff::Low), 0);

    s.set_active_tariff(Tariff::Low);
    assert_eq!(s.active_tariff_value(Tariff::Low), 1);
    assert_eq!(s.active_tariff_value(Tariff::High), 0);
}

#[test]
fn tariff_indicator_codes_select_registers() {
    let mut s = MetricsStore::new();
    let mut r = empty_reading();
    r.tariff_indicator = Some([0, 1]);
    s.apply_reading(&r);
    assert_eq!(s.active_tariff, Some(Tariff::Low));

    r.tariff_indicator = Some([0, 2]);
    s.apply_reading(&r);
    assert_eq!(s.active_tariff, Some(Tariff::High));

    // An unrecognized code identifies no register and moves nothing.
    r.tariff_indicator = Some([0, 3]);
    s.apply_reading(&r);
    assert_eq!(s.active_tariff, Some(Tariff::High));

    // An absent indicator means "no update this cycle".
    r.tariff_indicator = None;
    s.apply_reading(&r);
    assert_eq!(s.active_tariff, Some(Tariff::High));
}

#[test]
fn gas_counter_updates_only_from_gas_meter_readings() {
    let mut s = MetricsStore::new();

    // A sub-device of another type never touches the gas counter.
    let mut r = empty_reading();
    r.sub_devices = vec![SubDevice {
        device_type: Some(2),
        meter_reading: Some(7.5f64.to_bits()),
    }];
    s.apply_reading(&r);
    assert_eq!(s.gas_consumed_m3, None);

    // A gas meter without a value does not either.
    r.sub_devices = vec![SubDevice { device_type: Some(GAS_DEVICE_TYPE), meter_reading: None }];
    s.apply_reading(&r);
    assert_eq!(s.gas_consumed_m3, None);

    // A gas-meter reading with a value does.
    r.sub_devices = vec![SubDevice {
        device_type: Some(GAS_DEVICE_TYPE),
        meter_reading: Some(304.089f64.to_bits()),
    }];
    s.apply_reading(&r);
    assert_eq!(s.gas_consumed_m3, Some(304.089f64.to_bits()));

    // Later non-gas readings leave the stored value alone.
    r.sub_devices = vec![SubDevice {
        device_type: Some(4),
        meter_reading: Some(9.0f64.to_bits()),
    }];
    s.apply_reading(&r);
    assert_eq!(s.gas_consumed_m3, Some(304.089f64.to_bits()));
}

#[test]
fn last_gas_reading_in_one_telegram_wins() {
    let mut s = MetricsStore::new();
    let mut r = empty_reading();
    r.sub_devices = vec![
        SubDevice { device_type: Some(GAS_DEVICE_TYPE), meter_reading: Some(1.0f64.to_bits()) },
        SubDevice { device_type: Some(5), meter_reading: Some(2.0f64.to_bits()) },
        SubDevice { device_type: Some(GAS_DEVICE_TYPE), meter_reading: Some(3.0f64.to_bits()) },
    ];
    s.apply_reading(&r);
    assert_eq!(s.gas_consumed_m3, Some(3.0f64.to_bits()));
}

#[test]
fn update_overwrites_one_field_and_keeps_the_rest() {
    let mut s = MetricsStore::new();
    s.update(MetricField::PowerConsumedKw, 10);
    s.update(MetricField::PowerProducedKw, 20);
    s.update(MetricField::EnergyConsumedKwh(Tariff::Low), 30);
    s.update(MetricField::EnergyConsumedKwh(Tariff::High), 40);
    s.update(MetricField::EnergyProducedKwh(Tariff::Low), 50);
    s.update(MetricField::EnergyProducedKwh(Tariff::High), 60);
    s.update(MetricField::GasConsumedM3, 70);
    assert_eq!(s.power_consumed_kw, Some(10));
    assert_eq!(s.power_produced_kw, Some(20));
    assert_eq!(s.energy_consumed_kwh_low, Some(30));
    assert_eq!(s.energy_consumed_kwh_high, Some(40));
    assert_eq!(s.energy_produced_kwh_low, Some(50));
    assert_eq!(s.energy_produced_kwh_high, Some(60));
    assert_eq!(s.gas_consumed_m3, Some(70));
    assert_eq!(s.active_tariff, None);

    s.update(MetricField::PowerConsumedKw, 11);
    assert_eq!(s.power_consumed_kw, Some(11));
    assert_eq!(s.power_produced_kw, Some(20));
    assert_eq!(s.energy_produced_kwh(Tariff::Low), Some(50));
    assert_eq!(s.energy_produced_kwh(Tariff::High), Some(60));
}

#[test]
fn snapshot_copies_every_field() {
    let mut s = MetricsStore::new();
    s.update(MetricField::PowerConsumedKw, 1);
    s.set_active_tariff(Tariff::Low);
    let snap = s.snapshot();
    assert_eq!(snap, s);
    assert_eq!(snap.power_consumed_kw, Some(1));
    assert_eq!(snap.active_tariff, Some(Tariff::Low));
}

#[test]
fn empty_reading_changes_nothing() {
    let mut s = MetricsStore::new();
    s.update(MetricField::GasConsumedM3, 5);
    s.set_active_tariff(Tariff::High);
    let before = s;
    s.apply_reading(&empty_reading());
    assert_eq!(s, before);
}
