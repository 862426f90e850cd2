//! A discovered BLE device: what the plugin reports of it to the front-end,
//! and its order, which goes by address alone.

use std::cmp::Ordering;
use std::collections::HashMap;

use uuid::Uuid;
use vstd::prelude::*;
use vstd::std_specs::cmp::PartialEqSpec;
use vstd::std_specs::cmp::PartialEqSpecImpl;
use vstd::std_specs::cmp::PartialOrdSpec;
use vstd::std_specs::cmp::PartialOrdSpecImpl;
use vstd::utf8::*;

use crate::order::compare_bytes;
use crate::order::lex_sign;

verus! {

/// What the advertising reports of a peripheral tell about it.
pub struct PeripheralInfo {
    /// The local name, generally a human-readable string naming the kind of device.
    pub local_name: Option<String>,
    /// Advertisement data specific to the manufacturer, by manufacturer id.
    pub manufacturer_data: HashMap<u16, Vec<u8>>,
    /// Advertised services.
    pub services: Vec<Uuid>,
}

/// A device found by a scan.
#[derive(Debug, Clone)]
pub struct BleDevice {
    pub address: String,
    pub name: String,
    pub is_connected: bool,
    pub manufacturer_data: HashMap<u16, Vec<u8>>,
    pub services: Vec<Uuid>,
}

/// The name under which a device is reported: its advertised local name, or else the
/// peripheral's identifier.
pub open spec fn reported_name(properties: Option<PeripheralInfo>, peripheral_id: String) -> String {
    match properties {
        Some(p) => match p.local_name {
            Some(n) => n,
            None => peripheral_id,
        },
        None => peripheral_id,
    }
}

/// The `std::cmp::Ordering` that the sign of a comparison stands for.
pub open spec fn ordering_of_sign(sign: int) -> Ordering {
    if sign < 0 {
        Ordering::Less
    } else if sign == 0 {
        Ordering::Equal
    } else {
        Ordering::Greater
    }
}

/// The order of two devices: that of their addresses, byte by byte.
pub open spec fn device_order(a: &BleDevice, b: &BleDevice) -> Ordering {
    ordering_of_sign(lex_sign(encode_utf8(a.address@), encode_utf8(b.address@)))
}

/// Two devices are equal when their addresses are: `==` on devices means this.
pub open spec fn same_address(a: &BleDevice, b: &BleDevice) -> bool {
    a.address@ == b.address@
}

/// The reverse of an ordering.
pub open spec fn reverse_order(o: Ordering) -> Ordering {
    match o {
        Ordering::Less => Ordering::Greater,
        Ordering::Equal => Ordering::Equal,
        Ordering::Greater => Ordering::Less,
    }
}

/// Compares two addresses as std compares strings: by the bytes of their UTF-8 encoding.
pub fn compare_addresses(a: &String, b: &String) -> (o: Ordering)
    ensures
        o == ordering_of_sign(lex_sign(encode_utf8(a@), encode_utf8(b@))),
{
    let r = compare_bytes(a.as_str().as_bytes(), b.as_str().as_bytes());
    if r < 0 {
        Ordering::Less
    } else if r == 0 {
        Ordering::Equal
    } else {
        Ordering::Greater
    }
}

impl BleDevice {
    /// The record of a peripheral, from its address text, its identifier, the properties that
    /// its advertising reports gave (none yet: empty ones) and whether it is connected.
    pub fn from_peripheral(
        address: String,
        peripheral_id: String,
        properties: Option<PeripheralInfo>,
        is_connected: bool,
    ) -> (dev: BleDevice)
        ensures
            dev.address == address,
            dev.name == reported_name(properties, peripheral_id),
            dev.is_connected == is_connected,
            dev.manufacturer_data@ == (match properties {
                Some(p) => p.manufacturer_data@,
                None => Map::<u16, Vec<u8>>::empty(),
            }),
            dev.services@ == (match properties {
                Some(p) => p.services@,
                None => Seq::<Uuid>::empty(),
            }),
    {
        match properties {
            Some(p) => {
                let name = match p.local_name {
                    Some(n) => n,
                    None => peripheral_id,
                };
                BleDevice {
                    address,
                    name,
                    is_connected,
                    manufacturer_data: p.manufacturer_data,
                    services: p.services,
                }
            },
            None => BleDevice {
                address,
                name: peripheral_id,
                is_connected,
                manufacturer_data: HashMap::new(),
                services: Vec::new(),
            },
        }
    }

    /// Compares two devices by address.
    pub fn cmp(&self, other: &Self) -> (o: Ordering)
        ensures
            o == device_order(self, other),
    {
        compare_addresses(&self.address, &other.address)
    }
}

impl PartialEq for BleDevice {
    fn eq(&self, other: &Self) -> (r: bool) {
        self.address == other.address
    }
}

impl PartialEqSpecImpl for BleDevice {
    open spec fn obeys_eq_spec() -> bool {
        true
    }

    open spec fn eq_spec(&self, other: &Self) -> bool {
        same_address(self, other)
    }
}

impl Eq for BleDevice {

}

impl PartialOrd for BleDevice {
    fn partial_cmp(&self, other: &Self) -> (r: Option<Ordering>) {
        Some(self.cmp(other))
    }
}

impl PartialOrdSpecImpl for BleDevice {
    open spec fn obeys_partial_cmp_spec() -> bool {
        true
    }

    open spec fn partial_cmp_spec(&self, other: &Self) -> Option<Ordering> {
        Some(device_order(self, other))
    }
}

/// Two devices are in order `Equal` exactly when they are equal (same address).
pub proof fn law_order_matches_eq(a: BleDevice, b: BleDevice)
    ensures
        (device_order(&a, &b) == Ordering::Equal) == same_address(&a, &b),
{
    let ea = encode_utf8(a.address@);
    let eb = encode_utf8(b.address@);
    crate::order::lemma_lex_zero_iff_equal(ea, eb);
    encode_utf8_decode_utf8(a.address@);
    encode_utf8_decode_utf8(b.address@);
}

/// Comparing two devices the other way round gives the reverse order.
pub proof fn law_order_antisymmetric(a: BleDevice, b: BleDevice)
    ensures
        device_order(&b, &a) == reverse_order(device_order(&a, &b)),
{
    crate::order::lemma_lex_antisymmetric(
        encode_utf8(a.address@),
        encode_utf8(b.address@),
    );
}

/// The order of devices is transitive.
pub proof fn law_order_transitive(a: BleDevice, b: BleDevice, c: BleDevice)
    requires
        device_order(&a, &b) == Ordering::Less,
        device_order(&b, &c) == Ordering::Less,
    ensures
        device_order(&a, &c) == Ordering::Less,
{
    let ea = encode_utf8(a.address@);
    let eb = encode_utf8(b.address@);
    let ec = encode_utf8(c.address@);
    crate::order::lemma_lex_range(ea, eb);
    crate::order::lemma_lex_range(eb, ec);
    crate::order::lemma_lex_transitive(ea, eb, ec);
}

/// Equality of devices is an equivalence: reflexive, symmetric and transitive.
pub proof fn law_eq_equivalence(a: BleDevice, b: BleDevice, c: BleDevice)
    ensures
        same_address(&a, &a),
        same_address(&a, &b) == same_address(&b, &a),
        same_address(&a, &b) && same_address(&b, &c) ==> same_address(&a, &c),
{
}

/// Devices are ordered as their addresses are as strings: by the first byte where the UTF-8
/// encodings of the addresses differ, the smaller byte first, and a proper prefix before the
/// longer address.
pub proof fn law_order_by_first_difference(a: BleDevice, b: BleDevice, i: int)
    ensures
        ({
            let ea = encode_utf8(a.address@);
            let eb = encode_utf8(b.address@);
            &&& (0 <= i < ea.len() && i < eb.len() && ea.take(i) == eb.take(i) && ea[i] < eb[i])
                ==> device_order(&a, &b) == Ordering::Less && device_order(&b, &a)
                == Ordering::Greater
            &&& crate::order::is_proper_prefix(ea, eb) ==> device_order(&a, &b)
                == Ordering::Less && device_order(&b, &a) == Ordering::Greater
        }),
{
    let ea = encode_utf8(a.address@);
    let eb = encode_utf8(b.address@);
    if 0 <= i < ea.len() && i < eb.len() && ea.take(i) == eb.take(i) && ea[i] < eb[i] {
        crate::order::law_lex_first_difference(ea, eb, i);
        crate::order::lemma_lex_antisymmetric(ea, eb);
    }
    if crate::order::is_proper_prefix(ea, eb) {
        crate::order::law_lex_prefix_first(ea, eb);
        crate::order::lemma_lex_antisymmetric(ea, eb);
    }
}

/// `==` on devices compares their addresses and nothing else: two records of the same
/// address are equal whatever their names, connection states, data or services.
pub proof fn law_eq_is_address_equality(a: BleDevice, b: BleDevice)
    ensures
        <BleDevice as PartialEqSpec>::obeys_eq_spec(),
        PartialEqSpec::eq_spec(&a, &b) == (a.address@ == b.address@),
{
}

/// `partial_cmp` always gives the device order, which is `Equal` exactly for equal addresses.
pub proof fn law_partial_order_is_device_order(a: BleDevice, b: BleDevice)
    ensures
        PartialOrdSpec::partial_cmp_spec(&a, &b) == Some(device_order(&a, &b)),
        (device_order(&a, &b) == Ordering::Equal) == (a.address@ == b.address@),
{
    law_order_matches_eq(a, b);
}

/// A device is reported under its advertised local name when it has one, and under the
/// peripheral's identifier otherwise, also when it has no properties at all.
pub proof fn law_reported_name(properties: Option<PeripheralInfo>, peripheral_id: String)
    ensures
        (properties matches Some(p) && p.local_name is Some) ==> reported_name(
            properties,
            peripheral_id,
        ) == properties->0.local_name->0,
        (properties is None || properties->0.local_name is None) ==> reported_name(
            properties,
            peripheral_id,
        ) == peripheral_id,
{
}

} // verus!
