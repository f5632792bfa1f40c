//! Decoding of the manufacturer data that the scale advertises.
//!
//! The scale puts its weight under company code 0, as an unsigned 16-bit
//! little-endian number of hundredths of a kilogram at offsets 9 and 10 of
//! the block. Zero means that the measurement has not settled yet.

use crate::device::{DeviceIdentifier, MatchedDevice};
use crate::reading::{WeightField, WeightReading};
use std::collections::HashMap;
use vstd::prelude::*;

verus! {

broadcast use vstd::std_specs::hash::group_hash_axioms;

/// The manufacturer data of one advertisement: blocks of bytes by company
/// code.
pub type ManufacturerPayload = HashMap<u16, Vec<u8>>;

/// The company code under which the scale advertises its data.
pub const SCALE_COMPANY_CODE: u16 = 0;

/// Offset of the low byte of the weight field in the scale's block.
pub const WEIGHT_OFFSET: usize = 9;

/// The least length of a block that holds the whole weight field.
pub const MIN_BLOCK_LEN: usize = 11;

/// A manufacturer-data payload as a map from company codes to byte
/// sequences.
pub open spec fn payload_view(data: Map<u16, Vec<u8>>) -> Map<u16, Seq<u8>> {
    Map::new(|code: u16| data.contains_key(code), |code: u16| data[code]@)
}

/// The weight field of a block: its bytes at offsets 9 and 10, where the
/// block has at least 11 bytes.
pub open spec fn field_of_block(block: Seq<u8>) -> Option<WeightField> {
    if block.len() >= MIN_BLOCK_LEN {
        Some(WeightField { low: block[WEIGHT_OFFSET as int], high: block[WEIGHT_OFFSET + 1] })
    } else {
        None
    }
}

/// The weight field of a payload: that of the block under company code 0,
/// where there is one.
pub open spec fn field_of_payload(payload: Map<u16, Seq<u8>>) -> Option<WeightField> {
    if payload.contains_key(SCALE_COMPANY_CODE) {
        field_of_block(payload[SCALE_COMPANY_CODE])
    } else {
        None
    }
}

/// The weight field that an advertisement of the device `id` yields while
/// `matched` is the remembered device: that of its payload where `id` is
/// the remembered device, none otherwise.
pub open spec fn field_of_advertisement(
    id: Seq<u8>,
    matched: Option<Seq<u8>>,
    payload: Map<u16, Seq<u8>>,
) -> Option<WeightField> {
    if matched == Some(id) {
        field_of_payload(payload)
    } else {
        None
    }
}

/// The reading, in hundredths of a kilogram, that a weight field stands
/// for: none where there is no field or its value is zero.
pub open spec fn reading_of_field(field: Option<WeightField>) -> Option<nat> {
    match field {
        Some(f) => if f@ > 0 {
            Some(f@)
        } else {
            None
        },
        None => None,
    }
}

/// The reading, in hundredths of a kilogram, that an advertisement of the
/// device `id` yields while `matched` is the remembered device.
pub open spec fn reading_of_advertisement(
    id: Seq<u8>,
    matched: Option<Seq<u8>>,
    payload: Map<u16, Seq<u8>>,
) -> Option<nat> {
    reading_of_field(field_of_advertisement(id, matched, payload))
}

/// Reads the weight field of a block.
pub fn block_field(block: &[u8]) -> (field: Option<WeightField>)
    ensures
        field == field_of_block(block@),
{
    if block.len() >= MIN_BLOCK_LEN {
        Some(WeightField { low: block[WEIGHT_OFFSET], high: block[WEIGHT_OFFSET + 1] })
    } else {
        None
    }
}

/// Reads the weight field of a payload.
pub fn payload_field(data: &ManufacturerPayload) -> (field: Option<WeightField>)
    ensures
        field == field_of_payload(payload_view(data@)),
{
    match data.get(&SCALE_COMPANY_CODE) {
        Some(block) => block_field(block.as_slice()),
        None => None,
    }
}

/// Reads the weight field of an advertisement of the device `id`, which is
/// looked at only where `id` is the remembered device.
pub fn advertisement_field(
    id: &DeviceIdentifier,
    matched: &MatchedDevice,
    data: &ManufacturerPayload,
) -> (field: Option<WeightField>)
    ensures
        field == field_of_advertisement(id@, matched.deep_view(), payload_view(data@)),
{
    match matched {
        Some(remembered) => {
            if id.same_as(remembered) {
                payload_field(data)
            } else {
                None
            }
        },
        None => None,
    }
}

/// Decodes the weight that a manufacturer-data advertisement of the device
/// `id` carries.
///
/// There is a reading exactly when `id` is the remembered device, the
/// payload has a block under company code 0, the block has at least 11
/// bytes, and the value at offsets 9 and 10 is not zero. The reading is
/// that value.
pub fn on_manufacturer_data(
    id: &DeviceIdentifier,
    matched: &MatchedDevice,
    data: &ManufacturerPayload,
) -> (reading: Option<WeightReading>)
    ensures
        reading.deep_view() == reading_of_advertisement(
            id@,
            matched.deep_view(),
            payload_view(data@),
        ),
        matched.deep_view() != Some(id@) ==> reading is None,
        !data@.contains_key(0u16) ==> reading is None,
        data@.contains_key(0u16) && data@[0u16]@.len() < 11 ==> reading is None,
        data@.contains_key(0u16) && data@[0u16]@.len() >= 11 && data@[0u16]@[9] == 0
            && data@[0u16]@[10] == 0 ==> reading is None,
{
    match advertisement_field(id, matched, data) {
        Some(field) => WeightReading::from_raw(field.value()),
        None => None,
    }
}

} // verus!
