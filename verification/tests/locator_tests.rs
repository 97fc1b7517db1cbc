use keypad_bridge::locator::{
    find_device, keypad_identity, DeviceIdentity, PRODUCT_ID, USAGE, USAGE_PAGE, VENDOR_ID,
};

fn other(vendor_id: u16) -> DeviceIdentity {
    DeviceIdentity { vendor_id, product_id: 0x0001, usage_page: 0x0001, usage: 0x06 }
}

#[test]
fn keypad_identity_constants() {
    let identity = keypad_identity();
    assert_eq!(identity.vendor_id, 0xD010);
    assert_eq!(identity.product_id, 0x1601);
    assert_eq!(identity.usage_page, 0xFF60);
    assert_eq!(identity.usage, 0x61);
    assert_eq!((VENDOR_ID, PRODUCT_ID, USAGE_PAGE, USAGE), (0xD010, 0x1601, 0xFF60, 0x61));
}

#[test]
fn find_device_in_an_empty_list() {
    assert_eq!(find_device(&keypad_identity(), &[]), None);
}

#[test]
fn find_device_with_no_match() {
    let list = [other(1), other(2), other(3)];
    assert_eq!(find_device(&keypad_identity(), &list), None);
}

#[test]
fn find_device_with_one_match() {
    let list = [other(1), other(2), keypad_identity(), other(3)];
    assert_eq!(find_device(&keypad_identity(), &list), Some(2));
}

#[test]
fn find_device_with_several_matches_takes_the_first() {
    let list = [other(1), keypad_identity(), other(2), keypad_identity(), keypad_identity()];
    assert_eq!(find_device(&keypad_identity(), &list), Some(1));
}

#[test]
fn find_device_match_at_the_front() {
    let list = [keypad_identity(), other(2)];
    assert_eq!(find_device(&keypad_identity(), &list), Some(0));
}

#[test]
fn find_device_needs_all_four_fields() {
    let target = keypad_identity();
    let list = [
        DeviceIdentity { vendor_id: 0xD011, ..target },
        DeviceIdentity { product_id: 0x1602, ..target },
        DeviceIdentity { usage_page: 0x0001, ..target },
        DeviceIdentity { usage: 0x62, ..target },
    ];
    assert_eq!(find_device(&target, &list), None);
    let mut longer = list.to_vec();
    longer.push(target);
    assert_eq!(find_device(&target, &longer), Some(4));
}

#[test]
fn find_device_gives_the_same_answer_each_time() {
    let list = [other(1), keypad_identity(), keypad_identity()];
    let first = find_device(&keypad_identity(), &list);
    let second = find_device(&keypad_identity(), &list);
    assert_eq!(first, second);
}

#[test]
fn find_device_takes_any_target() {
    let list = [other(1), other(2), other(1)];
    assert_eq!(find_device(&other(2), &list), Some(1));
    assert_eq!(find_device(&other(1), &list), Some(0));
}
