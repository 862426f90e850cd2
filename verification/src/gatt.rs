//! GATT services and characteristics as the plugin reports them, and their
//! construction from what the Bluetooth stack discovered on a peripheral.

use uuid::Uuid;
use vstd::prelude::*;

use crate::props::get_flags;
use crate::props::prop_mask;
use crate::props::CharPropSet;
use crate::props::CharProps;

verus! {

/// A descriptor that the stack discovered on a characteristic.
pub struct GattDescriptor {
    pub uuid: Uuid,
}

/// A characteristic that the stack discovered on a service: its UUID, its properties byte and
/// its descriptors, in the stack's order.
pub struct GattCharacteristic {
    pub uuid: Uuid,
    pub properties: u8,
    pub descriptors: Vec<GattDescriptor>,
}

impl GattCharacteristic {
    /// Well-formedness: the stack keeps a characteristic's descriptors as a set, so no two of
    /// them have the same UUID.
    pub open spec fn wf(&self) -> bool {
        self.descriptors@.map_values(|d: GattDescriptor| d.uuid).no_duplicates()
    }
}

/// A service that the stack discovered on a peripheral, with its characteristics in the
/// stack's order.
pub struct GattService {
    pub uuid: Uuid,
    pub characteristics: Vec<GattCharacteristic>,
}

/// How a write to a characteristic is made.
#[derive(Clone, Copy, Debug)]
pub enum WriteType {
    /// aka request.
    WithResponse,
    /// aka command.
    WithoutResponse,
}

impl GattService {
    /// Well-formedness: every characteristic of the service is well-formed.
    pub open spec fn wf(&self) -> bool {
        forall|i: int| 0 <= i < self.characteristics@.len() ==> (#[trigger] self.characteristics@[i]).wf()
    }
}

/// A characteristic as reported to the front-end.
#[derive(Debug, Clone)]
pub struct Characteristic {
    pub uuid: Uuid,
    pub descriptors: Vec<Uuid>,
    pub properties: CharPropSet,
}

/// A service as reported to the front-end.
#[derive(Debug, Clone)]
pub struct Service {
    pub uuid: Uuid,
    pub characteristics: Vec<Characteristic>,
}

/// `c` reports the discovered characteristic `g`: same UUID, the UUIDs of its descriptors in
/// order, and the properties that its properties byte sets.
pub open spec fn reports_characteristic(c: Characteristic, g: GattCharacteristic) -> bool {
    &&& c.uuid == g.uuid
    &&& c.descriptors@ == g.descriptors@.map_values(|d: GattDescriptor| d.uuid)
    &&& c.properties@ == Set::new(|p: CharProps| g.properties & prop_mask(p) != 0)
    &&& c.properties.spec_bits() == g.properties
}

/// `s` reports the discovered service `g`: same UUID, and each characteristic reported in
/// order.
pub open spec fn reports_service(s: Service, g: GattService) -> bool {
    &&& s.uuid == g.uuid
    &&& s.characteristics@.len() == g.characteristics@.len()
    &&& forall|i: int|
        0 <= i < g.characteristics@.len() ==> reports_characteristic(
            #[trigger] s.characteristics@[i],
            g.characteristics@[i],
        )
}

impl Characteristic {
    /// The report of a discovered characteristic.
    pub fn from_gatt(characteristic: &GattCharacteristic) -> (c: Characteristic)
        ensures
            reports_characteristic(c, *characteristic),
            characteristic.wf() ==> c.descriptors@.no_duplicates(),
    {
        let mut descriptors: Vec<Uuid> = Vec::new();
        let n = characteristic.descriptors.len();
        let mut i: usize = 0;
        while i < n
            invariant
                n == characteristic.descriptors@.len(),
                i <= n,
                descriptors@ == characteristic.descriptors@.take(i as int).map_values(
                    |d: GattDescriptor| d.uuid,
                ),
            decreases n - i,
        {
            descriptors.push(characteristic.descriptors[i].uuid);
            assert(characteristic.descriptors@.take(i + 1) =~= characteristic.descriptors@.take(
                i as int,
            ).push(characteristic.descriptors@[i as int]));
            assert(descriptors@ =~= characteristic.descriptors@.take(i + 1).map_values(
                |d: GattDescriptor| d.uuid,
            ));
            i = i + 1;
        }
        assert(characteristic.descriptors@.take(n as int) =~= characteristic.descriptors@);
        Characteristic {
            uuid: characteristic.uuid,
            descriptors,
            properties: get_flags(characteristic.properties),
        }
    }
}

impl Service {
    /// The report of a discovered service.
    pub fn from_gatt(service: &GattService) -> (s: Service)
        ensures
            reports_service(s, *service),
            service.wf() ==> forall|i: int|
                0 <= i < s.characteristics@.len()
                    ==> (#[trigger] s.characteristics@[i]).descriptors@.no_duplicates(),
    {
        let mut characteristics: Vec<Characteristic> = Vec::new();
        let n = service.characteristics.len();
        let mut i: usize = 0;
        while i < n
            invariant
                n == service.characteristics@.len(),
                i <= n,
                characteristics@.len() == i,
                forall|j: int|
                    0 <= j < i ==> reports_characteristic(
                        #[trigger] characteristics@[j],
                        service.characteristics@[j],
                    ),
            decreases n - i,
        {
            let c = Characteristic::from_gatt(&service.characteristics[i]);
            characteristics.push(c);
            i = i + 1;
        }
        assert(service.wf() ==> forall|i: int|
            0 <= i < characteristics@.len()
                ==> (#[trigger] characteristics@[i]).descriptors@.no_duplicates()) by {
            if service.wf() {
                assert forall|i: int| 0 <= i < characteristics@.len() implies (
                #[trigger] characteristics@[i]).descriptors@.no_duplicates() by {
                    assert(service.characteristics@[i].wf());
                }
            }
        }
        Service { uuid: service.uuid, characteristics }
    }
}

/// A reported characteristic lists exactly the UUIDs of the discovered descriptors, one for
/// one and in the same order, and has a property exactly when that property's bit is set in
/// the discovered properties byte.
pub proof fn law_characteristic_report(c: Characteristic, g: GattCharacteristic)
    requires
        reports_characteristic(c, g),
    ensures
        c.uuid == g.uuid,
        c.descriptors@.len() == g.descriptors@.len(),
        forall|i: int| 0 <= i < g.descriptors@.len() ==> c.descriptors@[i] == #[trigger] g.descriptors@[i].uuid,
        forall|p: CharProps| c.properties@.contains(p) <==> (g.properties & prop_mask(p) != 0),
        c.properties.spec_bits() == g.properties,
{
}

/// A reported service keeps the discovered service's UUID and reports its characteristics one
/// for one, in the stack's order.
pub proof fn law_service_report(s: Service, g: GattService)
    requires
        reports_service(s, g),
    ensures
        s.uuid == g.uuid,
        s.characteristics@.len() == g.characteristics@.len(),
        forall|i: int|
            0 <= i < g.characteristics@.len() ==> (#[trigger] s.characteristics@[i]).uuid
                == g.characteristics@[i].uuid && s.characteristics@[i].descriptors@.len()
                == g.characteristics@[i].descriptors@.len()
                && s.characteristics@[i].properties.spec_bits()
                == g.characteristics@[i].properties,
{
    assert forall|i: int| 0 <= i < g.characteristics@.len() implies (
    #[trigger] s.characteristics@[i]).uuid == g.characteristics@[i].uuid
        && s.characteristics@[i].descriptors@.len() == g.characteristics@[i].descriptors@.len()
        && s.characteristics@[i].properties.spec_bits() == g.characteristics@[i].properties by {
        assert(reports_characteristic(s.characteristics@[i], g.characteristics@[i]));
    }
}

} // verus!
