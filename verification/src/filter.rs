//! Filter for discovering devices.

use uuid::Uuid;
use vstd::prelude::*;

verus! {

/// Filter for discovering devices.
/// Only devices matching the filter are returned by a discovery.
pub enum ScanFilter {
    /// Matches every device.
    NoFilter,
    /// Matches if the device advertises the specified service.
    Service(Uuid),
    /// Matches if the device advertises any of the specified services.
    AnyService(Vec<Uuid>),
    /// Matches if the device advertises all of the specified services.
    AllServices(Vec<Uuid>),
    /// Matches if the device advertises the specified manufacturer data.
    ManufacturerData(u16, Vec<u8>),
}

} // verus!
