//! The weight field of the scale's manufacturer data and the readings it
//! carries.

use vstd::prelude::*;

verus! {

/// Millionths of a pound in one hundredth of a kilogram, at 2.2046 pounds
/// to the kilogram.
pub const MICRO_POUNDS_PER_HUNDREDTH_KG: u32 = 22_046;

/// The two bytes of the weight field, in the order in which they stand in
/// the payload.
#[derive(Clone, Copy, Debug, PartialEq, Eq, Structural)]
pub struct WeightField {
    /// The byte at the lower offset: the low half of the value.
    pub low: u8,
    /// The byte at the higher offset: the high half of the value.
    pub high: u8,
}

impl View for WeightField {
    type V = nat;

    /// The unsigned 16-bit value that the two bytes write in little-endian
    /// order.
    open spec fn view(&self) -> nat {
        (self.low + 256 * self.high) as nat
    }
}

impl WeightField {
    /// The unsigned 16-bit value that the two bytes write in little-endian
    /// order.
    pub fn value(self) -> (value: u16)
        ensures
            value == self@,
    {
        let high: u16 = self.high as u16;
        let low: u16 = self.low as u16;
        high * 256 + low
    }
}

/// A weight reported by the scale, held as the positive number of
/// hundredths of a kilogram that the scale sent.
///
/// A reading is never zero: the scale sends zero while a measurement is
/// settling, and that is no reading.
#[derive(Clone, Copy, Debug, PartialEq, Eq)]
pub struct WeightReading {
    hundredths_kg: u16,
}

impl View for WeightReading {
    type V = nat;

    /// The reading in hundredths of a kilogram.
    closed spec fn view(&self) -> nat {
        self.hundredths_kg as nat
    }
}

impl DeepView for WeightReading {
    type V = nat;

    open spec fn deep_view(&self) -> nat {
        self@
    }
}

/// The weight, in millionths of a pound, of `hundredths_kg` hundredths of a
/// kilogram: `hundredths_kg / 100 * 2.2046` pounds, exactly.
pub open spec fn micro_pounds_of(hundredths_kg: nat) -> nat {
    hundredths_kg * (MICRO_POUNDS_PER_HUNDREDTH_KG as nat)
}

impl WeightReading {
    #[verifier::type_invariant]
    spec fn is_positive(self) -> bool {
        self.hundredths_kg > 0
    }

    /// The reading that a raw value of the weight field stands for: none
    /// for zero, the value itself otherwise.
    pub fn from_raw(raw: u16) -> (reading: Option<WeightReading>)
        ensures
            reading is None <==> raw == 0,
            reading matches Some(r) ==> r@ == raw,
    {
        if raw == 0 {
            None
        } else {
            Some(WeightReading { hundredths_kg: raw })
        }
    }

    /// The reading in hundredths of a kilogram, as the scale sent it.
    pub fn hundredths_kg(&self) -> (raw: u16)
        ensures
            raw == self@,
            raw > 0,
    {
        proof {
            use_type_invariant(self);
        }
        self.hundredths_kg
    }

    /// The reading in millionths of a pound.
    pub fn micro_pounds(&self) -> (micro_pounds: u32)
        ensures
            micro_pounds == micro_pounds_of(self@),
            micro_pounds > 0,
    {
        proof {
            use_type_invariant(self);
        }
        let raw: u32 = self.hundredths_kg as u32;
        raw * MICRO_POUNDS_PER_HUNDREDTH_KG
    }
}

} // verus!
