//! Tagged records handed to the kernel. Each record starts with a 128-bit tag
//! from a closed registry, by which the kernel recognises it.
use vstd::prelude::*;
use crate::uefi::Guid;

verus! {

pub const UEFI_BITVISOR_BOOT_UUID: Guid = 0x4cf80319_a870_44c5_9a87_60e586e79d0f;
pub const UEFI_BITVISOR_PASS_AUTH_UUID: Guid = 0xe0970cb4_df2e_44d1_b1a9_633ccde3a2c6;
pub const UEFI_BITVISOR_CPU_TYPE_UUID: Guid = 0x0992d209_72b0_491f_a2bc_c23d39f97876;
pub const UEFI_BITVISOR_DISCONNECT_CONTROLLER_UUID: Guid = 0x7b50e9da_e7ad_4e89_9d93_c35469334684;
pub const UEFI_BITVISOR_ACPI_TABLE_MOD_UUID: Guid = 0x79ff5f54_5392_42e0_a892_3b13b471d288;
pub const UEFI_BITVISOR_DEV_TREE_UUID: Guid = 0xd18652bc_d274_4e45_bfcc_02db91aed810;

/// Where the head of the kernel image was loaded, and the open file it came from.
#[derive(Debug, Clone, Copy)]
pub struct BitVisorBoot {
    pub bitvisor_boot_uuid: Guid,
    pub bitvisor_memory_address: usize,
    pub bitvisor_size: usize,
    /// Handle of the kernel image's open file.
    pub bitvisor_protocol: usize,
}

/// Entry address of the firmware's controller-disconnect service.
#[derive(Debug, Clone, Copy)]
pub struct BitVisorDisconnectController {
    pub bitvisor_disconnect_controller_uuid: Guid,
    pub disconnect_controller: usize,
}

/// Entry address of the loader's ACPI-modification trampoline.
#[derive(Debug, Clone, Copy)]
pub struct AcpiTable {
    pub bitvisor_acpi_uuid: Guid,
    pub acpi_table_mod: usize,
}

/// Physical address of the device-tree blob; never zero when present.
#[derive(Debug, Clone, Copy)]
pub struct DtbTable {
    pub bitvisor_dtb_uuid: Guid,
    pub dtb_table_address: Option<usize>,
}

impl BitVisorBoot {
    pub fn new(memory_address: usize, size: usize, file_handle: usize) -> (r: BitVisorBoot)
        ensures
            r == (BitVisorBoot {
                bitvisor_boot_uuid: UEFI_BITVISOR_BOOT_UUID,
                bitvisor_memory_address: memory_address,
                bitvisor_size: size,
                bitvisor_protocol: file_handle,
            }),
    {
        BitVisorBoot {
            bitvisor_boot_uuid: UEFI_BITVISOR_BOOT_UUID,
            bitvisor_memory_address: memory_address,
            bitvisor_size: size,
            bitvisor_protocol: file_handle,
        }
    }
}

impl BitVisorDisconnectController {
    pub fn new(disconnect_controller: usize) -> (r: BitVisorDisconnectController)
        ensures
            r == (BitVisorDisconnectController {
                bitvisor_disconnect_controller_uuid: UEFI_BITVISOR_DISCONNECT_CONTROLLER_UUID,
                disconnect_controller,
            }),
    {
        BitVisorDisconnectController {
            bitvisor_disconnect_controller_uuid: UEFI_BITVISOR_DISCONNECT_CONTROLLER_UUID,
            disconnect_controller,
        }
    }
}

impl AcpiTable {
    pub fn new(acpi_table_mod: usize) -> (r: AcpiTable)
        ensures
            r == (AcpiTable { bitvisor_acpi_uuid: UEFI_BITVISOR_ACPI_TABLE_MOD_UUID, acpi_table_mod }),
    {
        AcpiTable { bitvisor_acpi_uuid: UEFI_BITVISOR_ACPI_TABLE_MOD_UUID, acpi_table_mod }
    }
}

impl DtbTable {
    /// The record for a blob found at `address`, which must not be zero.
    pub fn new(address: usize) -> (r: DtbTable)
        requires
            address != 0,
        ensures
            r == (DtbTable { bitvisor_dtb_uuid: UEFI_BITVISOR_DEV_TREE_UUID, dtb_table_address: Some(address) }),
    {
        DtbTable { bitvisor_dtb_uuid: UEFI_BITVISOR_DEV_TREE_UUID, dtb_table_address: Some(address) }
    }
}

} // verus!
