//! Data model and decision logic of a Bluetooth Low Energy plugin: GATT
//! characteristic properties, device records and their ordering, address and
//! payload text encodings, and the scan session that walks adapters and
//! peripherals.

use vstd::prelude::*;

pub mod address;
pub mod device;
pub mod filter;
pub mod gatt;
pub mod order;
pub mod props;
pub mod session;
pub mod text;

verus! {

/// `uuid::Uuid`, carried through the library as an opaque value.
#[verifier::external_type_specification]
#[verifier::external_body]
pub struct ExUuid(uuid::Uuid);

/// `Uuid::clone`, which `derive(Clone, Copy)` writes in the uuid crate: the clone is a copy of
/// the value.
pub assume_specification[ <uuid::Uuid as Clone>::clone ](u: &uuid::Uuid) -> (r: uuid::Uuid)
    ensures
        r == *u,
;

} // verus!
