//! The parts of the UEFI data model that the loader decides on, held as plain
//! values: identifiers, status codes, configuration-table entries and entry
//! addresses of firmware services.
use vstd::prelude::*;

verus! {

/// 128-bit identifier naming a protocol, a configuration table or a handoff
/// record, held as the number its canonical text form spells out
/// (`8-4-4-4-12` hexadecimal digits read as one value).
pub type Guid = u128;

/// Status codes returned by firmware services and by this loader.
#[derive(Debug, Clone, Copy, PartialEq, Eq, Structural)]
pub enum EfiStatus {
    EfiSuccess,
    EfiLoadError,
    EfiInvalidParameter,
    EfiUnsupported,
    EfiNotFound,
    EfiOutOfResources,
    EfiDeviceError,
}

/// Identifier of the configuration table that holds a device-tree blob.
pub const EFI_DTB_TABLE_GUID: Guid = 0xb1b621d5_f19c_41a5_830b_d9152c69aae0;

/// Identifier of the loaded-image protocol.
pub const EFI_LOADED_IMAGE_PROTOCOL_GUID: Guid = 0x5b1b31a1_9562_11d2_8e3f_00a0c969723b;

/// One entry of the system table's configuration-table array.
#[derive(Debug, Clone, Copy)]
pub struct EfiConfigurationTable {
    pub vendor_guid: Guid,
    pub vendor_table: usize,
}

/// The part of the firmware's system table that the loader reads: the
/// configuration-table array and the entry count the firmware gives for it.
pub struct EfiSystemTable {
    pub num_table_entries: usize,
    pub configuration_table: Vec<EfiConfigurationTable>,
}

/// Entry addresses of the firmware's boot services that the loader hands on
/// or calls.
#[derive(Debug, Clone, Copy)]
pub struct EfiBootServices {
    pub allocate_pages: usize,
    pub free_pages: usize,
    pub load_image: usize,
    pub start_image: usize,
    pub disconnect_controller: usize,
    pub open_protocol: usize,
    pub close_protocol: usize,
}

/// Device-path node naming an image held in memory.
#[derive(Debug, Clone, Copy)]
pub struct DevicePathProtocol {
    pub major_type: u8,
    pub sub_type: u8,
    pub length: [u8; 2],
}

impl DevicePathProtocol {
    /// The node that wraps an embedded image: major type 0, the image's first
    /// byte as sub-type, and the image's length truncated to 16 bits, little-endian.
    pub fn for_embedded_image(blob: &[u8]) -> (r: DevicePathProtocol)
        requires
            blob@.len() > 0,
        ensures
            r.major_type == 0,
            r.sub_type == blob@[0],
            r.length@ == seq![(blob@.len() % 256) as u8, ((blob@.len() / 256) % 256) as u8],
    {
        let len = blob.len();
        let lo = (len % 256) as u8;
        let hi = ((len / 256) % 256) as u8;
        let length = [lo, hi];
        assert(length@ =~= seq![lo, hi]);
        DevicePathProtocol { major_type: 0, sub_type: blob[0], length }
    }
}

} // verus!
