//! Routing of the BLE subsystem's events to the matcher and the decoder.
//!
//! The events arrive one at a time, in the order in which the subsystem saw
//! them. [`dispatch`] takes one event and answers with the one thing that
//! the caller has to do for it. Where that is an address lookup, the caller
//! performs it and hands its outcome back as [`Event::AddressResolved`]
//! before it takes the next event.

use crate::address::HardwareAddress;
use crate::decoder::{
    advertisement_field, field_of_advertisement, payload_view, ManufacturerPayload,
};
use crate::device::DeviceIdentifier;
use crate::matcher::{after_discovery, is_match, DeviceMatcher, MatcherView};
use crate::reading::{WeightField, WeightReading};
use vstd::prelude::*;

verus! {

/// An event of the BLE subsystem, or the outcome of a lookup that was asked
/// of it.
#[derive(Debug, PartialEq, Eq)]
pub enum Event {
    /// A device became visible.
    DeviceDiscovered(DeviceIdentifier),
    /// The outcome of the address lookup for a discovered device: its
    /// hardware address, or `None` where the lookup failed.
    AddressResolved(DeviceIdentifier, Option<HardwareAddress>),
    /// A device advertised manufacturer data: blocks of bytes by company
    /// code.
    ManufacturerDataAdvertisement(DeviceIdentifier, ManufacturerPayload),
    /// Any other event.
    Other,
}

/// An event as the values that it carries.
pub enum EventView {
    DeviceDiscovered(Seq<u8>),
    AddressResolved(Seq<u8>, Option<Seq<u8>>),
    ManufacturerDataAdvertisement(Seq<u8>, Map<u16, Seq<u8>>),
    Other,
}

impl View for Event {
    type V = EventView;

    open spec fn view(&self) -> EventView {
        match self {
            Event::DeviceDiscovered(id) => EventView::DeviceDiscovered(id@),
            Event::AddressResolved(id, resolved) => EventView::AddressResolved(
                id@,
                resolved.deep_view(),
            ),
            Event::ManufacturerDataAdvertisement(id, data) => {
                EventView::ManufacturerDataAdvertisement(id@, payload_view(data@))
            },
            Event::Other => EventView::Other,
        }
    }
}

/// What the caller has to do for an event.
#[derive(Debug, PartialEq, Eq)]
pub enum Action {
    /// Nothing: the event leaves no trace.
    Ignore,
    /// Look up the hardware address of this device and hand the outcome
    /// back as [`Event::AddressResolved`].
    ResolveAddress(DeviceIdentifier),
    /// Record, at informational level, that the device with this address
    /// was matched.
    ReportMatch(HardwareAddress),
    /// Record, at debug level, the raw weight field. Its value is zero, so
    /// there is no reading to report.
    TraceField(WeightField),
    /// Record, at debug level, the raw weight field, and then, at
    /// informational level, the reading that it carries.
    ReportWeight(WeightField, WeightReading),
}

/// An action as the values that it carries; a reading is given in
/// hundredths of a kilogram.
pub enum ActionView {
    Ignore,
    ResolveAddress(Seq<u8>),
    ReportMatch(Seq<u8>),
    TraceField(WeightField),
    ReportWeight(WeightField, nat),
}

impl View for Action {
    type V = ActionView;

    open spec fn view(&self) -> ActionView {
        match self {
            Action::Ignore => ActionView::Ignore,
            Action::ResolveAddress(id) => ActionView::ResolveAddress(id@),
            Action::ReportMatch(address) => ActionView::ReportMatch(address@),
            Action::TraceField(field) => ActionView::TraceField(*field),
            Action::ReportWeight(field, reading) => ActionView::ReportWeight(*field, reading@),
        }
    }
}

/// The state in which an event leaves the matcher. Only the resolved
/// address of a discovered device can change it.
pub open spec fn next_state(state: MatcherView, event: EventView) -> MatcherView {
    match event {
        EventView::AddressResolved(id, resolved) => after_discovery(state, id, resolved),
        _ => state,
    }
}

/// What is to be done for a weight field that was read, or not, from an
/// advertisement.
pub open spec fn action_for_field(field: Option<WeightField>) -> ActionView {
    match field {
        Some(f) => if f@ > 0 {
            ActionView::ReportWeight(f, f@)
        } else {
            ActionView::TraceField(f)
        },
        None => ActionView::Ignore,
    }
}

/// What is to be done for an event that arrives in a given state.
pub open spec fn action_for(state: MatcherView, event: EventView) -> ActionView {
    match event {
        EventView::DeviceDiscovered(id) => if state.matched is None {
            ActionView::ResolveAddress(id)
        } else {
            ActionView::Ignore
        },
        EventView::AddressResolved(_, resolved) => if is_match(state, resolved) {
            ActionView::ReportMatch(state.target)
        } else {
            ActionView::Ignore
        },
        EventView::ManufacturerDataAdvertisement(id, payload) => action_for_field(
            field_of_advertisement(id, state.matched, payload),
        ),
        EventView::Other => ActionView::Ignore,
    }
}

/// The action for a weight field that was read, or not, from an
/// advertisement of the matched device.
pub fn field_action(field: Option<WeightField>) -> (action: Action)
    ensures
        action@ == action_for_field(field),
{
    match field {
        Some(f) => match WeightReading::from_raw(f.value()) {
            Some(reading) => Action::ReportWeight(f, reading),
            None => Action::TraceField(f),
        },
        None => Action::Ignore,
    }
}

/// Takes one event, brings the matcher up to date and says what is to be
/// done for the event.
///
/// - A discovered device has its address looked up while no device is
///   matched, and is passed over after that.
/// - A resolved address that is the target, while no device is matched,
///   makes its device the matched one and is reported. A failed lookup,
///   another address, and any address once a device is matched change
///   nothing and leave no trace.
/// - Manufacturer data of the matched device is decoded; that of any other
///   device, and all of it while no device is matched, changes nothing and
///   leaves no trace.
/// - Every other event changes nothing and leaves no trace.
pub fn dispatch(matcher: &mut DeviceMatcher, event: Event) -> (action: Action)
    ensures
        final(matcher)@ == next_state(old(matcher)@, event@),
        action@ == action_for(old(matcher)@, event@),
        final(matcher)@.target == old(matcher)@.target,
        old(matcher)@.matched is Some ==> final(matcher)@ == old(matcher)@,
        event@ matches EventView::AddressResolved(_, resolved) && resolved != Some(
            old(matcher)@.target,
        ) ==> final(matcher)@ == old(matcher)@ && action@ == ActionView::Ignore,
        event@ matches EventView::ManufacturerDataAdvertisement(id, _) && old(matcher)@.matched
            != Some(id) ==> final(matcher)@ == old(matcher)@ && action@ == ActionView::Ignore,
{
    match event {
        Event::DeviceDiscovered(id) => {
            if matcher.needs_lookup() {
                Action::ResolveAddress(id)
            } else {
                Action::Ignore
            }
        },
        Event::AddressResolved(id, resolved) => {
            let target = matcher.target();
            match matcher.on_discovered(id, resolved) {
                Some(_) => Action::ReportMatch(target),
                None => Action::Ignore,
            }
        },
        Event::ManufacturerDataAdvertisement(id, data) => {
            field_action(advertisement_field(&id, matcher.matched(), &data))
        },
        Event::Other => Action::Ignore,
    }
}

} // verus!
