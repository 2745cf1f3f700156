//! MSI-X interrupt delivery: the per-device vector map the guest programs,
//! the vector table entries, and the decision which message-signaled
//! interrupt — if any — a config or queue interrupt turns into.

use vstd::prelude::*;

verus! {

/// The vector value meaning "no MSI-X vector assigned"; interrupts looked up
/// through it are dropped.
pub const VIRTIO_MSI_NO_VECTOR: u16 = 0xffff;

/// One entry of the MSI-X vector table: message address, message data, and
/// the per-vector control word whose bit 0 masks the vector.
#[derive(Debug, Copy, Clone, PartialEq, Eq, Structural)]
pub struct MsixTableEntry {
    /// Low half of the message address.
    pub addr_lo: u32,
    /// High half of the message address.
    pub addr_hi: u32,
    /// Message data.
    pub data: u32,
    /// Vector control; bit 0 set masks the vector.
    pub control: u32,
}

/// The value a table entry holds before the guest programs it.
pub open spec fn spec_initial_entry() -> MsixTableEntry {
    MsixTableEntry { addr_lo: 0, addr_hi: 0, data: 0, control: 0 }
}

/// Whether a table entry's control word masks the vector.
pub open spec fn spec_entry_masked(e: MsixTableEntry) -> bool {
    e.control & 1 == 1
}

/// Returns whether a table entry's control word masks the vector.
pub fn entry_masked(e: &MsixTableEntry) -> (r: bool)
    ensures
        r == spec_entry_masked(*e),
{
    e.control & 1 == 1
}

/// The full 64-bit message address of a table entry.
pub open spec fn spec_entry_addr(e: MsixTableEntry) -> u64 {
    (e.addr_hi as u64) << 32 | e.addr_lo as u64
}

/// A message-signaled interrupt ready for submission to the host.
#[derive(Debug, Copy, Clone, PartialEq, Eq, Structural)]
pub struct MsiMessage {
    /// The 64-bit message address.
    pub addr: u64,
    /// The 32-bit message data.
    pub data: u32,
}

/// The per-device map from interrupt sources to MSI-X table indices: one slot
/// for the config interrupt and one per queue. The guest writes these through
/// the common configuration registers.
#[derive(Debug, Clone, PartialEq, Eq)]
pub struct MsixVectorMap {
    /// The vector of the config interrupt.
    pub config: u16,
    /// The vector of each queue's interrupt.
    pub queues: Vec<u16>,
}

/// The interrupt sender the transport hands to the device: the vector map
/// and the MSI-X table entries it reads. The host's MSI submission primitive
/// consumes the messages this decides on.
#[derive(Debug, Clone, PartialEq, Eq)]
pub struct PciIrqSender {
    /// The guest-programmed vector map.
    pub msix_vector: MsixVectorMap,
    /// The MSI-X vector table, indexed by vector number.
    pub msix_entries: Vec<MsixTableEntry>,
}

/// The mathematical content of a `PciIrqSender`.
pub ghost struct IrqView {
    /// The config interrupt's vector.
    pub config: u16,
    /// Each queue's vector.
    pub queues: Seq<u16>,
    /// The vector table.
    pub entries: Seq<MsixTableEntry>,
}

impl View for PciIrqSender {
    type V = IrqView;

    open spec fn view(&self) -> IrqView {
        IrqView {
            config: self.msix_vector.config,
            queues: self.msix_vector.queues@,
            entries: self.msix_entries@,
        }
    }
}

/// The message delivered for a vector number: none when the vector is out of
/// the table or its entry is masked, else the entry's address and data.
pub open spec fn spec_msi_for_vector(v: IrqView, vector: u16) -> Option<MsiMessage> {
    if vector as int >= v.entries.len() {
        None
    } else if spec_entry_masked(v.entries[vector as int]) {
        None
    } else {
        Some(
            MsiMessage {
                addr: spec_entry_addr(v.entries[vector as int]),
                data: v.entries[vector as int].data,
            },
        )
    }
}

/// The message a config interrupt turns into: none while no vector is
/// assigned, else the assigned vector's message.
pub open spec fn spec_config_irq(v: IrqView) -> Option<MsiMessage> {
    if v.config == VIRTIO_MSI_NO_VECTOR {
        None
    } else {
        spec_msi_for_vector(v, v.config)
    }
}

/// The message a queue interrupt turns into: none for an unknown queue or
/// while no vector is assigned, else the assigned vector's message.
pub open spec fn spec_queue_irq(v: IrqView, q_index: u16) -> Option<MsiMessage> {
    if q_index as int >= v.queues.len() {
        None
    } else if v.queues[q_index as int] == VIRTIO_MSI_NO_VECTOR {
        None
    } else {
        spec_msi_for_vector(v, v.queues[q_index as int])
    }
}

impl PciIrqSender {
    /// Builds the interrupt state a device starts with: every vector slot
    /// unassigned and a zeroed table of `table_entries` entries.
    pub fn new(num_queues: u16, table_entries: u16) -> (r: PciIrqSender)
        ensures
            r@.config == VIRTIO_MSI_NO_VECTOR,
            r@.queues.len() == num_queues,
            forall|i: int| 0 <= i < num_queues ==> r@.queues[i] == VIRTIO_MSI_NO_VECTOR,
            r@.entries.len() == table_entries,
            forall|i: int| 0 <= i < table_entries ==> r@.entries[i] == spec_initial_entry(),
    {
        let mut queues: Vec<u16> = Vec::new();
        let mut i: u16 = 0;
        while i < num_queues
            invariant
                i <= num_queues,
                queues@.len() == i,
                forall|j: int| 0 <= j < i ==> queues@[j] == VIRTIO_MSI_NO_VECTOR,
            decreases num_queues - i,
        {
            queues.push(VIRTIO_MSI_NO_VECTOR);
            i = i + 1;
        }
        let mut entries: Vec<MsixTableEntry> = Vec::new();
        let mut k: u16 = 0;
        while k < table_entries
            invariant
                k <= table_entries,
                entries@.len() == k,
                forall|j: int| 0 <= j < k ==> entries@[j] == spec_initial_entry(),
            decreases table_entries - k,
        {
            entries.push(MsixTableEntry { addr_lo: 0, addr_hi: 0, data: 0, control: 0 });
            k = k + 1;
        }
        PciIrqSender { msix_vector: MsixVectorMap { config: VIRTIO_MSI_NO_VECTOR, queues }, msix_entries: entries }
    }

    /// Decides the message for a vector number: the entry's address and data,
    /// unless the vector is outside the table or masked.
    pub fn msi_for_vector(&self, vector: u16) -> (r: Option<MsiMessage>)
        ensures
            r == spec_msi_for_vector(self@, vector),
    {
        if (vector as usize) < self.msix_entries.len() {
            let e = self.msix_entries[vector as usize];
            if entry_masked(&e) {
                None
            } else {
                Some(MsiMessage { addr: (e.addr_hi as u64) << 32 | e.addr_lo as u64, data: e.data })
            }
        } else {
            None
        }
    }

    /// Decides the message for a config interrupt.
    pub fn config_irq(&self) -> (r: Option<MsiMessage>)
        ensures
            r == spec_config_irq(self@),
    {
        let vector = self.msix_vector.config;
        if vector != VIRTIO_MSI_NO_VECTOR {
            self.msi_for_vector(vector)
        } else {
            None
        }
    }

    /// Decides the message for an interrupt of queue `q_index`.
    pub fn queue_irq(&self, q_index: u16) -> (r: Option<MsiMessage>)
        ensures
            r == spec_queue_irq(self@, q_index),
    {
        if (q_index as usize) < self.msix_vector.queues.len() {
            let vector = self.msix_vector.queues[q_index as usize];
            if vector != VIRTIO_MSI_NO_VECTOR {
                self.msi_for_vector(vector)
            } else {
                None
            }
        } else {
            None
        }
    }
}

/// Whether every vector slot of the map — the config slot and each queue
/// slot — is unassigned, as a reset leaves them.
pub open spec fn spec_all_vectors_cleared(v: IrqView) -> bool {
    v.config == VIRTIO_MSI_NO_VECTOR && forall|i: int|
        0 <= i < v.queues.len() ==> v.queues[i] == VIRTIO_MSI_NO_VECTOR
}

/// While every vector slot is unassigned — the state a reset leaves behind —
/// no interrupt is delivered: an interrupt raised by a racing device after a
/// reset, before the guest programs vectors again, is dropped rather than
/// sent to a stale address.
pub proof fn lemma_cleared_vectors_drop_interrupts(v: IrqView)
    requires
        spec_all_vectors_cleared(v),
    ensures
        spec_config_irq(v) is None,
        forall|q_index: u16| spec_queue_irq(v, q_index) is None,
{
}

} // verus!
