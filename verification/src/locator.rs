//! Choosing the keypad among the HID interfaces that the platform lists.

use vstd::prelude::*;

verus! {

/// Vendor id of the keypad.
pub const VENDOR_ID: u16 = 0xD010;

/// Product id of the keypad.
pub const PRODUCT_ID: u16 = 0x1601;

/// Usage page of the keypad's raw channel.
pub const USAGE_PAGE: u16 = 0xFF60;

/// Usage of the keypad's raw channel.
pub const USAGE: u16 = 0x61;

/// The four fields by which a HID interface is recognised.
#[derive(Clone, Copy, Debug, PartialEq, Eq, Structural)]
pub struct DeviceIdentity {
    pub vendor_id: u16,
    pub product_id: u16,
    pub usage_page: u16,
    pub usage: u16,
}

/// The identity of the keypad's raw channel.
pub open spec fn keypad() -> DeviceIdentity {
    DeviceIdentity {
        vendor_id: VENDOR_ID,
        product_id: PRODUCT_ID,
        usage_page: USAGE_PAGE,
        usage: USAGE,
    }
}

/// `index` is the position of the first interface in `interfaces` whose
/// identity equals `target`.
pub open spec fn is_first_match(
    target: DeviceIdentity,
    interfaces: Seq<DeviceIdentity>,
    index: int,
) -> bool {
    &&& 0 <= index < interfaces.len()
    &&& interfaces[index] == target
    &&& forall|j: int| 0 <= j < index ==> interfaces[j] != target
}

/// No interface in `interfaces` has the identity `target`.
pub open spec fn no_match(target: DeviceIdentity, interfaces: Seq<DeviceIdentity>) -> bool {
    forall|j: int| 0 <= j < interfaces.len() ==> interfaces[j] != target
}

/// The identity that the bridge looks for.
pub fn keypad_identity() -> (identity: DeviceIdentity)
    ensures
        identity == keypad(),
{
    DeviceIdentity {
        vendor_id: VENDOR_ID,
        product_id: PRODUCT_ID,
        usage_page: USAGE_PAGE,
        usage: USAGE,
    }
}

/// Position of the first listed interface with the identity `target`, in
/// the order of the list; `None` when no interface has it.
pub fn find_device(target: &DeviceIdentity, interfaces: &[DeviceIdentity]) -> (found: Option<usize>)
    ensures
        match found {
            Some(index) => is_first_match(*target, interfaces@, index as int),
            None => no_match(*target, interfaces@),
        },
{
    let mut i: usize = 0;
    while i < interfaces.len()
        invariant
            i <= interfaces@.len(),
            forall|j: int| 0 <= j < i ==> interfaces@[j] != *target,
        decreases interfaces@.len() - i,
    {
        if interfaces[i] == *target {
            return Some(i);
        }
        i += 1;
    }
    None
}

/// Selection is a function of the list: a list has at most one first match,
/// and it has one exactly when some interface matches.
pub proof fn lemma_selection_deterministic(
    target: DeviceIdentity,
    interfaces: Seq<DeviceIdentity>,
    a: int,
    b: int,
)
    requires
        is_first_match(target, interfaces, a),
        is_first_match(target, interfaces, b),
    ensures
        a == b,
        !no_match(target, interfaces),
{
}

} // verus!
