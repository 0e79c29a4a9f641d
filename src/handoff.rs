//! The table of tagged records passed to the kernel: five slots in a fixed
//! order, the last always empty, an absent optional record an empty slot.
use vstd::prelude::*;
use crate::info::{
    AcpiTable, BitVisorBoot, BitVisorDisconnectController, DtbTable, UEFI_BITVISOR_ACPI_TABLE_MOD_UUID,
    UEFI_BITVISOR_BOOT_UUID, UEFI_BITVISOR_DEV_TREE_UUID, UEFI_BITVISOR_DISCONNECT_CONTROLLER_UUID,
};
use crate::uefi::Guid;

verus! {

/// Number of slots of the handoff table, the terminating empty one included.
pub const HANDOFF_SLOTS: usize = 5;

/// One record of the handoff table.
#[derive(Debug, Clone, Copy)]
pub enum HandoffRecord {
    Boot(BitVisorBoot),
    DisconnectController(BitVisorDisconnectController),
    AcpiMod(AcpiTable),
    Dtb(DtbTable),
}

impl HandoffRecord {
    pub open spec fn tag_spec(&self) -> Guid {
        match *self {
            HandoffRecord::Boot(b) => b.bitvisor_boot_uuid,
            HandoffRecord::DisconnectController(d) => d.bitvisor_disconnect_controller_uuid,
            HandoffRecord::AcpiMod(a) => a.bitvisor_acpi_uuid,
            HandoffRecord::Dtb(d) => d.bitvisor_dtb_uuid,
        }
    }

    /// The 128-bit tag at the head of the record.
    pub fn tag(&self) -> (r: Guid)
        ensures
            r == self.tag_spec(),
    {
        match self {
            HandoffRecord::Boot(b) => b.bitvisor_boot_uuid,
            HandoffRecord::DisconnectController(d) => d.bitvisor_disconnect_controller_uuid,
            HandoffRecord::AcpiMod(a) => a.bitvisor_acpi_uuid,
            HandoffRecord::Dtb(d) => d.bitvisor_dtb_uuid,
        }
    }
}

/// A device-tree record under its tag, with a nonzero address.
pub open spec fn dtb_record_complete(t: DtbTable) -> bool {
    &&& t.bitvisor_dtb_uuid == UEFI_BITVISOR_DEV_TREE_UUID
    &&& t.dtb_table_address matches Some(a) && a != 0
}

/// Whether a slot holds a record under `tag`.
pub open spec fn slot_has_tag(slot: Option<HandoffRecord>, tag: Guid) -> bool {
    slot matches Some(rec) && rec.tag_spec() == tag
}

/// The slots of the table built from these values, in order.
pub open spec fn handoff_slots(
    memory_address: usize,
    size: usize,
    file_handle: usize,
    disconnect_controller: usize,
    acpi_table_mod: usize,
    dtb_address: Option<usize>,
) -> Seq<Option<HandoffRecord>> {
    seq![
        Some(HandoffRecord::Boot(BitVisorBoot {
            bitvisor_boot_uuid: UEFI_BITVISOR_BOOT_UUID,
            bitvisor_memory_address: memory_address,
            bitvisor_size: size,
            bitvisor_protocol: file_handle,
        })),
        Some(HandoffRecord::DisconnectController(BitVisorDisconnectController {
            bitvisor_disconnect_controller_uuid: UEFI_BITVISOR_DISCONNECT_CONTROLLER_UUID,
            disconnect_controller,
        })),
        Some(HandoffRecord::AcpiMod(AcpiTable { bitvisor_acpi_uuid: UEFI_BITVISOR_ACPI_TABLE_MOD_UUID, acpi_table_mod })),
        match dtb_address {
            Some(a) => Some(HandoffRecord::Dtb(DtbTable {
                bitvisor_dtb_uuid: UEFI_BITVISOR_DEV_TREE_UUID,
                dtb_table_address: Some(a),
            })),
            None => None,
        },
        None,
    ]
}

/// The handoff table: each slot holds a record or is empty.
pub struct HandoffTable {
    pub slots: [Option<HandoffRecord>; 5],
}

impl HandoffTable {
    /// Fixed shape of the table: boot record, disconnect-controller record and
    /// ACPI-modification record in slots 0 to 2, each under its own tag; slot 3
    /// empty or a device-tree record with a nonzero address; slot 4 empty.
    pub open spec fn wf(&self) -> bool {
        &&& self.slots@.len() == HANDOFF_SLOTS
        &&& self.slots@[0] matches Some(HandoffRecord::Boot(b)) && b.bitvisor_boot_uuid == UEFI_BITVISOR_BOOT_UUID
        &&& self.slots@[1] matches Some(HandoffRecord::DisconnectController(d))
            && d.bitvisor_disconnect_controller_uuid == UEFI_BITVISOR_DISCONNECT_CONTROLLER_UUID
        &&& self.slots@[2] matches Some(HandoffRecord::AcpiMod(a)) && a.bitvisor_acpi_uuid == UEFI_BITVISOR_ACPI_TABLE_MOD_UUID
        &&& match self.slots@[3] {
            None => true,
            Some(HandoffRecord::Dtb(t)) => dtb_record_complete(t),
            Some(_) => false,
        }
        &&& self.slots@[4] is None
    }

    /// Builds the table for an image loaded at `memory_address` (`size` bytes,
    /// read from the open file `file_handle`), the firmware's controller-disconnect
    /// entry, the ACPI trampoline's entry, and the device-tree address if one was
    /// found.
    pub fn build(
        memory_address: usize,
        size: usize,
        file_handle: usize,
        disconnect_controller: usize,
        acpi_table_mod: usize,
        dtb_address: Option<usize>,
    ) -> (r: HandoffTable)
        requires
            dtb_address matches Some(a) ==> a != 0,
        ensures
            r.wf(),
            r.slots@ == handoff_slots(memory_address, size, file_handle, disconnect_controller, acpi_table_mod, dtb_address),
    {
        let boot = BitVisorBoot::new(memory_address, size, file_handle);
        let disconnect = BitVisorDisconnectController::new(disconnect_controller);
        let acpi = AcpiTable::new(acpi_table_mod);
        let dtb = match dtb_address {
            Some(a) => Some(HandoffRecord::Dtb(DtbTable::new(a))),
            None => None,
        };
        HandoffTable {
            slots: [
                Some(HandoffRecord::Boot(boot)),
                Some(HandoffRecord::DisconnectController(disconnect)),
                Some(HandoffRecord::AcpiMod(acpi)),
                dtb,
                None,
            ],
        }
    }

    /// Index of the first slot whose record carries `tag`, as the kernel finds it.
    pub fn find(&self, tag: Guid) -> (r: Option<usize>)
        ensures
            match r {
                Some(i) => i < HANDOFF_SLOTS && slot_has_tag(self.slots@[i as int], tag)
                    && forall|j: int| 0 <= j < i ==> !slot_has_tag(#[trigger] self.slots@[j], tag),
                None => forall|j: int| 0 <= j < HANDOFF_SLOTS ==> !slot_has_tag(#[trigger] self.slots@[j], tag),
            },
    {
        let mut i: usize = 0;
        while i < HANDOFF_SLOTS
            invariant
                i <= HANDOFF_SLOTS,
                self.slots@.len() == HANDOFF_SLOTS,
                forall|j: int| 0 <= j < i ==> !slot_has_tag(#[trigger] self.slots@[j], tag),
            decreases HANDOFF_SLOTS - i,
        {
            if let Some(rec) = &self.slots[i] {
                if rec.tag() == tag {
                    return Some(i);
                }
            }
            i = i + 1;
        }
        None
    }
}

/// Whatever the inputs, the table has five slots, the last one empty; with
/// no device-tree address slot 3 is empty, and with one it holds a complete
/// device-tree record, never a partly filled one.
pub proof fn lemma_handoff_shape(
    memory_address: usize,
    size: usize,
    file_handle: usize,
    disconnect_controller: usize,
    acpi_table_mod: usize,
    dtb_address: Option<usize>,
)
    requires
        dtb_address matches Some(a) ==> a != 0,
    ensures
        ({
            let s = handoff_slots(memory_address, size, file_handle, disconnect_controller, acpi_table_mod, dtb_address);
            &&& s.len() == HANDOFF_SLOTS
            &&& s[4] is None
            &&& dtb_address is None ==> s[3] is None
            &&& dtb_address is Some ==> (s[3] matches Some(HandoffRecord::Dtb(d)) && dtb_record_complete(d))
        }),
{
}

} // verus!
