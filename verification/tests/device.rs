use std::cmp::Ordering;
use std::collections::HashMap;

use bluetooth::device::{BleDevice, PeripheralInfo};
use uuid::Uuid;

fn device(address: &str, name: &str) -> BleDevice {
    BleDevice::from_peripheral(
        address.to_string(),
        format!("id-{name}"),
        Some(PeripheralInfo {
            local_name: Some(name.to_string()),
            manufacturer_data: HashMap::new(),
            services: Vec::new(),
        }),
        false,
    )
}

#[test]
fn from_peripheral_with_properties() {
    let mut data = HashMap::new();
    data.insert(0x004c_u16, vec![1, 2, 3]);
    let svc = Uuid::from_u128(0x0000180d_0000_1000_8000_00805f9b34fb);
    let dev = BleDevice::from_peripheral(
        "AA:BB:CC:DD:EE:FF".to_string(),
        "hci0/dev_AA".to_string(),
        Some(PeripheralInfo {
            local_name: Some("Heart".to_string()),
            manufacturer_data: data.clone(),
            services: vec![svc],
        }),
        true,
    );
    assert_eq!(dev.address, "AA:BB:CC:DD:EE:FF");
    assert_eq!(dev.name, "Heart");
    assert!(dev.is_connected);
    assert_eq!(dev.manufacturer_data, data);
    assert_eq!(dev.services, vec![svc]);
}

#[test]
fn from_peripheral_without_local_name_uses_the_id() {
    let dev = BleDevice::from_peripheral(
        "00:00:00:00:00:01".to_string(),
        "hci0/dev_01".to_string(),
        Some(PeripheralInfo { local_name: None, manufacturer_data: HashMap::new(), services: vec![] }),
        false,
    );
    assert_eq!(dev.name, "hci0/dev_01");
    assert!(!dev.is_connected);
}

#[test]
fn from_peripheral_without_properties_is_empty() {
    let dev = BleDevice::from_peripheral("X".to_string(), "peer".to_string(), None, false);
    assert_eq!(dev.name, "peer");
    assert!(dev.manufacturer_data.is_empty());
    assert!(dev.services.is_empty());
}

#[test]
fn equality_goes_by_address_only() {
    let a = device("AA", "one");
    let b = device("AA", "two");
    let c = device("AB", "one");
    assert!(a == b);
    assert!(a != c);
    assert!(a == a.clone());
}

#[test]
fn order_goes_by_address() {
    let a = device("A1", "z");
    let b = device("B0", "a");
    assert_eq!(a.cmp(&b), Ordering::Less);
    assert_eq!(b.cmp(&a), Ordering::Greater);
    assert_eq!(a.cmp(&device("A1", "q")), Ordering::Equal);
    assert_eq!(a.partial_cmp(&b), Some(Ordering::Less));
    assert!(a < b);
    assert_eq!(device("A", "").cmp(&device("AB", "")), Ordering::Less);
    assert_eq!(device("", "").cmp(&device("", "")), Ordering::Equal);
}

#[test]
fn order_is_the_string_order() {
    let addrs = ["b", "a", "ab", "", "é", "z", "Z", "aa", "ä"];
    for x in addrs {
        for y in addrs {
            assert_eq!(device(x, "").cmp(&device(y, "")), x.cmp(y));
            assert_eq!(device(x, "") == device(y, ""), x == y);
        }
    }
}

#[test]
fn sorting_devices_sorts_addresses() {
    let mut devs = vec![device("C", "c"), device("A", "a"), device("B", "b")];
    devs.sort_by(|x, y| x.cmp(y));
    let names: Vec<&str> = devs.iter().map(|d| d.name.as_str()).collect();
    assert_eq!(names, vec!["a", "b", "c"]);
}
