//! Recognition of the one device whose hardware address is the target.

use crate::address::HardwareAddress;
use crate::device::{DeviceIdentifier, MatchedDevice};
use vstd::prelude::*;

verus! {

/// What a matcher knows: the address it looks for and, once it has seen
/// it, the device that has it.
pub struct MatcherView {
    /// The octets of the target address.
    pub target: Seq<u8>,
    /// The token of the matched device, if there is one yet.
    pub matched: Option<Seq<u8>>,
}

/// Whether a discovery with this resolved address is the match: no device
/// is matched yet, the address was resolved, and it is the target.
pub open spec fn is_match(state: MatcherView, resolved: Option<Seq<u8>>) -> bool {
    state.matched is None && resolved == Some(state.target)
}

/// The state after the discovery of the device `id` whose address lookup
/// gave `resolved`: `id` is remembered where the discovery is the match,
/// and nothing changes otherwise.
pub open spec fn after_discovery(
    state: MatcherView,
    id: Seq<u8>,
    resolved: Option<Seq<u8>>,
) -> MatcherView {
    if is_match(state, resolved) {
        MatcherView { target: state.target, matched: Some(id) }
    } else {
        state
    }
}

/// Remembers the device whose hardware address equals the target address.
///
/// The target never changes. The remembered device starts empty, is set by
/// the first discovery whose resolved address is the target, and is never
/// changed or cleared after that.
pub struct DeviceMatcher {
    target: HardwareAddress,
    matched: MatchedDevice,
}

impl View for DeviceMatcher {
    type V = MatcherView;

    closed spec fn view(&self) -> MatcherView {
        MatcherView { target: self.target@, matched: self.matched.deep_view() }
    }
}

impl DeviceMatcher {
    /// A matcher that looks for `target` and has matched no device yet.
    pub fn new(target: HardwareAddress) -> (matcher: DeviceMatcher)
        ensures
            matcher@ == (MatcherView { target: target@, matched: None }),
    {
        DeviceMatcher { target, matched: None }
    }

    /// The address that the matcher looks for.
    pub fn target(&self) -> (target: HardwareAddress)
        ensures
            target@ == self@.target,
    {
        self.target
    }

    /// The matched device, if there is one yet.
    pub fn matched(&self) -> (matched: &MatchedDevice)
        ensures
            matched.deep_view() == self@.matched,
    {
        &self.matched
    }

    /// Whether the address of a discovered device is still worth looking
    /// up: it is until a device is matched, and never after.
    pub fn needs_lookup(&self) -> (needed: bool)
        ensures
            needed == (self@.matched is None),
    {
        self.matched.is_none()
    }

    /// Takes the discovery of the device `id`, with the hardware address
    /// that its lookup gave, or `None` where the lookup failed.
    ///
    /// Where no device is matched yet and the address is the target, `id`
    /// becomes the matched device and is returned. In every other case the
    /// matcher stays as it is and nothing is returned: a failed lookup and
    /// another address are passed over, and so is every discovery once a
    /// device is matched, whatever its address.
    pub fn on_discovered(&mut self, id: DeviceIdentifier, resolved: Option<HardwareAddress>) -> (found:
        Option<DeviceIdentifier>)
        ensures
            final(self)@ == after_discovery(old(self)@, id@, resolved.deep_view()),
            found.deep_view() == if is_match(old(self)@, resolved.deep_view()) {
                Some(id@)
            } else {
                None
            },
            final(self)@.target == old(self)@.target,
            resolved.deep_view() != Some(old(self)@.target) ==> final(self)@ == old(self)@
                && found is None,
            old(self)@.matched is Some ==> final(self)@ == old(self)@ && found is None,
            old(self)@.matched is None && resolved.deep_view() == Some(old(self)@.target)
                ==> final(self)@.matched == Some(id@) && found.deep_view() == Some(id@),
    {
        if self.matched.is_some() {
            return None;
        }
        match resolved {
            Some(address) => {
                if address.same_as(&self.target) {
                    self.matched = Some(id.clone());
                    Some(id)
                } else {
                    None
                }
            },
            None => None,
        }
    }
}

} // verus!
