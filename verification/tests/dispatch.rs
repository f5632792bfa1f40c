use health_scale::address::{health_scale_address, HardwareAddress};
use health_scale::device::DeviceIdentifier;
use health_scale::dispatch::{dispatch, field_action, Action, Event};
use health_scale::matcher::DeviceMatcher;
use health_scale::reading::{WeightField, WeightReading};
use std::collections::HashMap;

fn id(token: &str) -> DeviceIdentifier {
    DeviceIdentifier::new(token.as_bytes().to_vec())
}

fn target() -> HardwareAddress {
    HardwareAddress::new([0x34, 0x03, 0xDE, 0x08, 0xC7, 0xB9])
}

fn advertisement(token: &str, low: u8, high: u8) -> Event {
    let mut data = HashMap::new();
    data.insert(0u16, vec![0, 0, 0, 0, 0, 0, 0, 0, 0, low, high]);
    Event::ManufacturerDataAdvertisement(id(token), data)
}

fn matched_on(token: &str) -> DeviceMatcher {
    let mut matcher = DeviceMatcher::new(target());
    let action = dispatch(&mut matcher, Event::AddressResolved(id(token), Some(target())));
    assert_eq!(action, Action::ReportMatch(target()));
    matcher
}

fn pounds_text(reading: &WeightReading) -> String {
    format!("{:.1}", reading.hundredths_kg() as f32 / 100.0 * 2.2046)
}

#[test]
fn the_scale_is_matched_and_its_weight_reported() {
    let mut matcher = DeviceMatcher::new(health_scale_address());
    let mut match_records = 0;
    let mut weight_records = Vec::new();

    let lookup = dispatch(&mut matcher, Event::DeviceDiscovered(id("A")));
    assert_eq!(lookup, Action::ResolveAddress(id("A")));
    let stream = vec![
        Event::AddressResolved(id("A"), Some(target())),
        advertisement("A", 0x9D, 0x08),
    ];
    for event in stream {
        match dispatch(&mut matcher, event) {
            Action::ReportMatch(address) => {
                assert_eq!(address, target());
                match_records += 1;
            }
            Action::ReportWeight(field, reading) => {
                assert_eq!(field, WeightField { low: 0x9D, high: 0x08 });
                assert_eq!(reading.hundredths_kg(), 2205);
                assert_eq!(reading.micro_pounds(), 48_611_430);
                weight_records.push(pounds_text(&reading));
            }
            other => panic!("unexpected action {:?}", other),
        }
    }
    assert_eq!(match_records, 1);
    assert_eq!(weight_records, vec!["48.6".to_string()]);
    assert_eq!(matcher.matched(), &Some(id("A")));
}

#[test]
fn a_discovered_device_is_looked_up_while_nothing_is_matched() {
    let mut matcher = DeviceMatcher::new(target());
    assert_eq!(
        dispatch(&mut matcher, Event::DeviceDiscovered(id("A"))),
        Action::ResolveAddress(id("A"))
    );
    assert_eq!(
        dispatch(&mut matcher, Event::DeviceDiscovered(id("B"))),
        Action::ResolveAddress(id("B"))
    );
    assert_eq!(matcher.matched(), &None);
}

#[test]
fn no_device_is_looked_up_once_one_is_matched() {
    let mut matcher = matched_on("A");
    assert_eq!(dispatch(&mut matcher, Event::DeviceDiscovered(id("A"))), Action::Ignore);
    assert_eq!(dispatch(&mut matcher, Event::DeviceDiscovered(id("B"))), Action::Ignore);
    assert_eq!(matcher.matched(), &Some(id("A")));
}

#[test]
fn another_address_leaves_no_trace() {
    let mut matcher = DeviceMatcher::new(target());
    let other = HardwareAddress::new([0x34, 0x03, 0xDE, 0x08, 0xC7, 0x00]);
    assert_eq!(
        dispatch(&mut matcher, Event::AddressResolved(id("A"), Some(other))),
        Action::Ignore
    );
    assert_eq!(matcher.matched(), &None);
    assert!(matcher.needs_lookup());
}

#[test]
fn a_failed_lookup_leaves_no_trace() {
    let mut matcher = DeviceMatcher::new(target());
    assert_eq!(dispatch(&mut matcher, Event::AddressResolved(id("A"), None)), Action::Ignore);
    assert_eq!(matcher.matched(), &None);
}

#[test]
fn a_second_discovery_of_the_target_address_is_no_second_match() {
    let mut matcher = matched_on("A");
    assert_eq!(
        dispatch(&mut matcher, Event::AddressResolved(id("A"), Some(target()))),
        Action::Ignore
    );
    assert_eq!(
        dispatch(&mut matcher, Event::AddressResolved(id("B"), Some(target()))),
        Action::Ignore
    );
    assert_eq!(matcher.matched(), &Some(id("A")));
}

#[test]
fn advertisements_before_the_match_leave_no_trace() {
    let mut matcher = DeviceMatcher::new(target());
    assert_eq!(dispatch(&mut matcher, advertisement("A", 0x64, 0x00)), Action::Ignore);
    assert_eq!(matcher.matched(), &None);
}

#[test]
fn advertisements_of_other_devices_leave_no_trace() {
    let mut matcher = matched_on("A");
    assert_eq!(dispatch(&mut matcher, advertisement("B", 0x64, 0x00)), Action::Ignore);
    assert_eq!(dispatch(&mut matcher, advertisement("", 0x64, 0x00)), Action::Ignore);
    assert_eq!(matcher.matched(), &Some(id("A")));
}

#[test]
fn a_settling_measurement_is_traced_and_not_reported() {
    let mut matcher = matched_on("A");
    assert_eq!(
        dispatch(&mut matcher, advertisement("A", 0, 0)),
        Action::TraceField(WeightField { low: 0, high: 0 })
    );
}

#[test]
fn a_short_block_leaves_no_trace() {
    let mut matcher = matched_on("A");
    let mut data = HashMap::new();
    data.insert(0u16, vec![0, 0, 0, 0, 0, 0, 0, 0, 0, 0x64]);
    assert_eq!(
        dispatch(&mut matcher, Event::ManufacturerDataAdvertisement(id("A"), data)),
        Action::Ignore
    );
}

#[test]
fn a_payload_without_the_scale_block_leaves_no_trace() {
    let mut matcher = matched_on("A");
    let mut data = HashMap::new();
    data.insert(76u16, vec![0, 0, 0, 0, 0, 0, 0, 0, 0, 0x64, 0x00]);
    assert_eq!(
        dispatch(&mut matcher, Event::ManufacturerDataAdvertisement(id("A"), data)),
        Action::Ignore
    );
    assert_eq!(
        dispatch(&mut matcher, Event::ManufacturerDataAdvertisement(id("A"), HashMap::new())),
        Action::Ignore
    );
}

#[test]
fn other_events_leave_no_trace() {
    let mut matcher = DeviceMatcher::new(target());
    assert_eq!(dispatch(&mut matcher, Event::Other), Action::Ignore);
    assert_eq!(matcher.matched(), &None);
    let mut matcher = matched_on("A");
    assert_eq!(dispatch(&mut matcher, Event::Other), Action::Ignore);
    assert_eq!(matcher.matched(), &Some(id("A")));
}

#[test]
fn a_replayed_advertisement_is_reported_twice_alike() {
    let mut matcher = matched_on("A");
    let first = dispatch(&mut matcher, advertisement("A", 0x64, 0x00));
    let second = dispatch(&mut matcher, advertisement("A", 0x64, 0x00));
    assert_eq!(first, second);
    assert_eq!(
        first,
        Action::ReportWeight(
            WeightField { low: 0x64, high: 0x00 },
            WeightReading::from_raw(100).unwrap()
        )
    );
}

#[test]
fn readings_follow_one_another_in_the_order_of_arrival() {
    let mut matcher = matched_on("A");
    let mut seen = Vec::new();
    for (low, high) in [(0u8, 0u8), (0x10, 0x00), (0x9D, 0x08), (0x00, 0x00), (0x9E, 0x08)] {
        if let Action::ReportWeight(_, reading) = dispatch(&mut matcher, advertisement("A", low, high)) {
            seen.push(reading.hundredths_kg());
        }
    }
    assert_eq!(seen, vec![16, 2205, 2206]);
}

#[test]
fn field_action_tells_zero_from_a_reading() {
    assert_eq!(field_action(None), Action::Ignore);
    assert_eq!(
        field_action(Some(WeightField { low: 0, high: 0 })),
        Action::TraceField(WeightField { low: 0, high: 0 })
    );
    assert_eq!(
        field_action(Some(WeightField { low: 1, high: 0 })),
        Action::ReportWeight(WeightField { low: 1, high: 0 }, WeightReading::from_raw(1).unwrap())
    );
}
