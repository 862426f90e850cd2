use bluetooth::gatt::{Characteristic, GattCharacteristic, GattDescriptor, GattService, Service};
use uuid::Uuid;

fn u(n: u128) -> Uuid {
    Uuid::from_u128(n)
}

#[test]
fn characteristic_from_gatt() {
    let g = GattCharacteristic {
        uuid: u(0x2a37),
        properties: 0x12,
        descriptors: vec![GattDescriptor { uuid: u(0x2902) }, GattDescriptor { uuid: u(0x2901) }],
    };
    let c = Characteristic::from_gatt(&g);
    assert_eq!(c.uuid, u(0x2a37));
    assert_eq!(c.descriptors, vec![u(0x2902), u(0x2901)]);
    assert_eq!(c.properties.bits(), 0x12);
    let copy = c.clone();
    assert_eq!(copy.uuid, c.uuid);
}

#[test]
fn service_from_gatt_keeps_order() {
    let g = GattService {
        uuid: u(0x180d),
        characteristics: vec![
            GattCharacteristic { uuid: u(1), properties: 0x02, descriptors: vec![] },
            GattCharacteristic { uuid: u(2), properties: 0x08, descriptors: vec![GattDescriptor { uuid: u(3) }] },
        ],
    };
    let s = Service::from_gatt(&g);
    assert_eq!(s.uuid, u(0x180d));
    assert_eq!(s.characteristics.len(), 2);
    assert_eq!(s.characteristics[0].uuid, u(1));
    assert_eq!(s.characteristics[0].properties.bits(), 0x02);
    assert!(s.characteristics[0].descriptors.is_empty());
    assert_eq!(s.characteristics[1].uuid, u(2));
    assert_eq!(s.characteristics[1].properties.bits(), 0x08);
    assert_eq!(s.characteristics[1].descriptors, vec![u(3)]);
}

#[test]
fn empty_service() {
    let s = Service::from_gatt(&GattService { uuid: u(9), characteristics: vec![] });
    assert!(s.characteristics.is_empty());
}

#[test]
fn distinct_descriptors_stay_distinct() {
    let g = GattCharacteristic {
        uuid: u(0x2a19),
        properties: 0x02,
        descriptors: vec![
            GattDescriptor { uuid: u(0x2900) },
            GattDescriptor { uuid: u(0x2901) },
            GattDescriptor { uuid: u(0x2902) },
        ],
    };
    let c = Characteristic::from_gatt(&g);
    let mut seen = c.descriptors.clone();
    seen.sort();
    seen.dedup();
    assert_eq!(seen.len(), c.descriptors.len());
}
