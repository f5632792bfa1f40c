//! Identifiers of the devices seen while scanning.

use vstd::prelude::*;

verus! {

/// The token by which the BLE subsystem refers to a discovered device while
/// it remains visible.
///
/// The token is opaque: nothing is read from it but whether two tokens are
/// the same, byte for byte.
#[derive(Debug, PartialEq, Eq, Hash)]
pub struct DeviceIdentifier {
    pub token: Vec<u8>,
}

impl View for DeviceIdentifier {
    type V = Seq<u8>;

    open spec fn view(&self) -> Seq<u8> {
        self.token@
    }
}

impl DeepView for DeviceIdentifier {
    type V = Seq<u8>;

    open spec fn deep_view(&self) -> Seq<u8> {
        self.token@
    }
}

impl Clone for DeviceIdentifier {
    fn clone(&self) -> (copy: DeviceIdentifier)
        ensures
            copy@ == self@,
    {
        DeviceIdentifier { token: self.token.clone() }
    }
}

/// The one device that is remembered as having the target address, once
/// it was discovered; empty until then.
pub type MatchedDevice = Option<DeviceIdentifier>;

impl DeviceIdentifier {
    /// The identifier with the given token.
    pub fn new(token: Vec<u8>) -> (id: DeviceIdentifier)
        ensures
            id@ == token@,
    {
        DeviceIdentifier { token }
    }

    /// Whether two identifiers are the same token.
    pub fn same_as(&self, other: &DeviceIdentifier) -> (same: bool)
        ensures
            same == (self@ == other@),
    {
        let same = self.token == other.token;
        assert(same == (self@ =~= other@));
        same
    }
}

} // verus!
