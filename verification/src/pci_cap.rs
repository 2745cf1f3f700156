//! The PCI face of the transport: class codes, the vendor-specific virtio
//! capability records, and the layout plan — header values, capability list,
//! and BAR masks — that wires a device's register region into BAR0.

use vstd::prelude::*;
use crate::virtio::{spec_device_id_num, device_id_num, DeviceId};

verus! {

/// The PCI vendor id all virtio devices carry.
pub const VIRTIO_VENDOR_ID: u16 = 0x1af4;

/// The base of the modern virtio PCI device id space; the device id is this
/// base plus the virtio device number.
pub const VIRTIO_DEVICE_ID_BASE: u16 = 0x1040;

/// The PCI capability id of a vendor-specific capability.
pub const PCI_CAP_ID_VENDOR: u8 = 0x09;

/// The PCI capability id of the MSI-X capability.
pub const PCI_CAP_ID_MSIX: u8 = 0x11;

/// The PCI (class, subclass) a virtio device kind is presented under.
pub open spec fn spec_get_class(id: DeviceId) -> (u8, u8) {
    match id {
        DeviceId::Net => (0x02, 0x00),
        DeviceId::FileSystem => (0x01, 0x80),
        DeviceId::Block => (0x01, 0x00),
        DeviceId::Socket => (0x02, 0x80),
        DeviceId::Entropy => (0xff, 0x00),
    }
}

/// Returns the PCI (class, subclass) of a virtio device kind; kinds without
/// a defined class code fall back to the unassigned class.
pub fn get_class(id: DeviceId) -> (r: (u8, u8))
    ensures
        r == spec_get_class(id),
{
    match id {
        DeviceId::Net => (0x02, 0x00),
        DeviceId::FileSystem => (0x01, 0x80),
        DeviceId::Block => (0x01, 0x00),
        DeviceId::Socket => (0x02, 0x80),
        DeviceId::Entropy => (0xff, 0x00),
    }
}

/// The cfg_type space of the vendor-specific virtio capabilities.
#[derive(Debug, Copy, Clone, PartialEq, Eq, Structural)]
pub enum VirtioPciCfg {
    /// The common configuration registers.
    Common,
    /// The queue-notify doorbells.
    Notify,
    /// The ISR status word.
    Isr,
    /// The device-specific configuration.
    Device,
    /// A shared-memory region, with 64-bit offset and length.
    SharedMemory,
    /// A capability left to the vendor.
    Vendor,
}

/// The cfg_type value a capability kind carries on the wire.
pub open spec fn spec_cfg_type_value(cfg: VirtioPciCfg) -> u8 {
    match cfg {
        VirtioPciCfg::Common => 1,
        VirtioPciCfg::Notify => 2,
        VirtioPciCfg::Isr => 3,
        VirtioPciCfg::Device => 4,
        VirtioPciCfg::SharedMemory => 5,
        VirtioPciCfg::Vendor => 9,
    }
}

/// Returns the cfg_type value of a capability kind.
pub fn cfg_type_value(cfg: VirtioPciCfg) -> (r: u8)
    ensures
        r == spec_cfg_type_value(cfg),
{
    match cfg {
        VirtioPciCfg::Common => 1,
        VirtioPciCfg::Notify => 2,
        VirtioPciCfg::Isr => 3,
        VirtioPciCfg::Device => 4,
        VirtioPciCfg::SharedMemory => 5,
        VirtioPciCfg::Vendor => 9,
    }
}

/// A PCI capability header: the capability id and the link to the next
/// capability in the list.
#[derive(Debug, Copy, Clone, PartialEq, Eq, Structural, Default)]
pub struct PciCapHdr {
    pub id: u8,
    pub next: u8,
}

/// A vendor-specific virtio capability: which configuration structure it
/// describes and where that structure lives in which BAR. Two bytes of
/// padding follow `id` on the wire before `offset`.
#[derive(Debug, Copy, Clone, PartialEq, Eq, Structural)]
pub struct VirtioPciCap {
    pub header: PciCapHdr,
    pub cap_len: u8,
    pub cfg_type: u8,
    pub bar: u8,
    pub id: u8,
    pub offset: u32,
    pub length: u32,
}

/// The wire size of a `VirtioPciCap`, padding included.
pub const VIRTIO_PCI_CAP_SIZE: u8 = 16;

/// A virtio capability with 64-bit offset and length, used for shared-memory
/// regions.
#[derive(Debug, Copy, Clone, PartialEq, Eq, Structural)]
pub struct VirtioPciCap64 {
    pub cap: VirtioPciCap,
    pub offset_hi: u32,
    pub length_hi: u32,
}

/// The wire size of a `VirtioPciCap64`.
pub const VIRTIO_PCI_CAP64_SIZE: u8 = 24;

/// The notify capability: a virtio capability plus the multiplier from a
/// queue's notify offset to its doorbell address.
#[derive(Debug, Copy, Clone, PartialEq, Eq, Structural)]
pub struct VirtioPciNotifyCap {
    pub cap: VirtioPciCap,
    pub multiplier: u32,
}

/// The wire size of a `VirtioPciNotifyCap`.
pub const VIRTIO_PCI_NOTIFY_CAP_SIZE: u8 = 20;

/// The doorbell stride: queue i's doorbell lies 4·i bytes into the notify
/// region, matching the notify-offset register reading back the queue index.
pub const NOTIFY_OFF_MULTIPLIER: u32 = 4;

impl VirtioPciCap {
    /// Links this capability to the next one in the list.
    pub fn set_next(&mut self, val: u8)
        ensures
            *final(self) == (VirtioPciCap {
                header: PciCapHdr { next: val, ..old(self).header },
                ..*old(self)
            }),
    {
        self.header.next = val;
    }
}

impl VirtioPciCap64 {
    /// Links this capability to the next one in the list.
    pub fn set_next(&mut self, val: u8)
        ensures
            *final(self) == (VirtioPciCap64 {
                cap: VirtioPciCap {
                    header: PciCapHdr { next: val, ..old(self).cap.header },
                    ..old(self).cap
                },
                ..*old(self)
            }),
    {
        self.cap.set_next(val);
    }
}

impl VirtioPciNotifyCap {
    /// Links this capability to the next one in the list.
    pub fn set_next(&mut self, val: u8)
        ensures
            *final(self) == (VirtioPciNotifyCap {
                cap: VirtioPciCap {
                    header: PciCapHdr { next: val, ..old(self).cap.header },
                    ..old(self).cap
                },
                ..*old(self)
            }),
    {
        self.cap.header.next = val;
    }
}

/// The total size of BAR0: MSI-X table, PBA, and the register region.
pub const BAR0_SIZE: u64 = 16384;

/// The BAR mask of the 16 KiB BAR0.
pub const BAR0_MASK: u64 = 0xffff_ffff_ffff_c000;

/// Offset of the MSI-X PBA within BAR0.
pub const MSIX_PBA_OFFSET: u32 = 8192;

/// Offset of the register region within BAR0.
pub const REGISTER_OFFSET: u32 = 12288;

/// The wire size of one MSI-X table entry.
pub const MSIX_TABLE_ENTRY_SIZE: u16 = 16;

/// The least power of two at or above `x` (and 1 for zero).
pub open spec fn spec_next_pow2(x: nat) -> nat
    decreases x,
{
    if x <= 1 {
        1
    } else {
        2 * spec_next_pow2(((x + 1) / 2) as nat)
    }
}

/// Whether a number is a power of two.
pub open spec fn spec_is_pow2(x: nat) -> bool
    decreases x,
{
    if x == 0 {
        false
    } else if x == 1 {
        true
    } else {
        x % 2 == 0 && spec_is_pow2((x / 2) as nat)
    }
}

/// `spec_next_pow2` is what its name says: a power of two, at least `x`, and
/// below the next doubling.
pub proof fn lemma_next_pow2_props(x: nat)
    requires
        x >= 1,
    ensures
        spec_next_pow2(x) >= x,
        spec_next_pow2(x) <= 2 * x - 1,
        spec_is_pow2(spec_next_pow2(x)),
    decreases x,
{
    if x <= 1 {
    } else {
        let h = ((x + 1) / 2) as nat;
        lemma_next_pow2_props(h);
        let r = spec_next_pow2(h);
        assert(spec_next_pow2(x) == 2 * r);
        assert(spec_is_pow2(2 * r));
        if r == x {
            // x at least 2 and a power of two is even, so r == x == 2h - 1
            // being odd forces x == 1, against x >= 2.
            if x % 2 != 0 {
                assert(spec_is_pow2(x));
                assert(x == 1);
            }
        }
        assert(r <= x - 1);
    }
}

/// The BAR mask of a region of the given size: all address bits above the
/// region rounded up to a power of two.
pub open spec fn spec_bar_mask(size: nat) -> u64 {
    !(((spec_next_pow2(size) - 1) as u64))
}

/// Rounds up to the least power of two at or above `x`.
pub fn next_power_of_two_u64(x: u64) -> (r: u64)
    requires
        1 <= x <= 0x4000_0000_0000_0000,
    ensures
        r == spec_next_pow2(x as nat),
    decreases x,
{
    if x <= 1 {
        1
    } else {
        let half = (x + 1) / 2;
        proof {
            lemma_next_pow2_props(half as nat);
        }
        let sub = next_power_of_two_u64(half);
        2 * sub
    }
}

/// The sum of a sequence of region-entry sizes.
pub open spec fn spec_sum(sizes: Seq<u64>) -> int
    decreases sizes.len(),
{
    if sizes.len() == 0 {
        0
    } else {
        spec_sum(sizes.drop_last()) + sizes.last()
    }
}

/// Every prefix sum extends by the next element.
pub proof fn lemma_sum_take_succ(sizes: Seq<u64>, i: int)
    requires
        0 <= i < sizes.len(),
    ensures
        spec_sum(sizes.take(i + 1)) == spec_sum(sizes.take(i)) + sizes[i],
{
    assert(sizes.take(i + 1).drop_last() =~= sizes.take(i));
    assert(sizes.take(i + 1).last() == sizes[i]);
}

/// The values of the MSI-X capability: the message control word and where
/// table and PBA live in BAR0.
#[derive(Debug, Copy, Clone, PartialEq, Eq, Structural)]
pub struct MsixCapInfo {
    /// Message control: the table size minus one in its low bits.
    pub msg_ctrl: u16,
    /// Offset of the vector table in BAR0.
    pub table_offset: u32,
    /// Offset of the pending-bit array in BAR0.
    pub pba_offset: u32,
}

/// The BAR2 values of a device exposing shared memory.
#[derive(Debug, Copy, Clone, PartialEq, Eq, Structural)]
pub struct Bar2Plan {
    /// The shared region's total size.
    pub size: u64,
    /// The BAR mask of the region rounded up to a power of two.
    pub mask: u64,
    /// Whether the BAR may be marked prefetchable: only when the region
    /// contains no emulated sub-range.
    pub prefetchable: bool,
}

/// The shared-memory capability of entry `i`: a 64-bit-addressed capability
/// in BAR2, at the running offset of the entries before it.
pub open spec fn spec_shared_mem_cap(sizes: Seq<u64>, i: int) -> VirtioPciCap64 {
    let o = spec_sum(sizes.take(i)) as u64;
    let sz = sizes[i];
    VirtioPciCap64 {
        cap: VirtioPciCap {
            header: PciCapHdr { id: PCI_CAP_ID_VENDOR, next: 0 },
            cap_len: VIRTIO_PCI_CAP64_SIZE,
            cfg_type: 5,
            bar: 2,
            id: i as u8,
            offset: o as u32,
            length: sz as u32,
        },
        offset_hi: (o >> 32) as u32,
        length_hi: (sz >> 32) as u32,
    }
}

/// The complete layout of one virtio device on its PCI function: the header
/// identity, the MSI-X capability, the vendor-specific capability list, and
/// the BAR sizes and masks. The PCI configuration container consumes this
/// plan as plain values.
#[derive(Debug, Clone, PartialEq, Eq)]
pub struct TransportPlan {
    pub vendor: u16,
    pub device: u16,
    pub subsystem: u16,
    pub revision: u8,
    pub class: u8,
    pub subclass: u8,
    /// One MSI-X table entry per queue plus one for the config interrupt.
    pub table_entries: u16,
    /// The size of the MSI-X table in bytes.
    pub msix_table_size: u32,
    pub msix_cap: MsixCapInfo,
    pub cap_common: VirtioPciCap,
    pub cap_isr: VirtioPciCap,
    pub cap_notify: VirtioPciNotifyCap,
    /// Present only when the device has device-specific configuration.
    pub cap_device: Option<VirtioPciCap>,
    /// One capability per shared-memory region entry.
    pub shared_mem_caps: Vec<VirtioPciCap64>,
    /// Offset of the device-specific configuration in BAR0.
    pub device_config_offset: u32,
    pub bar0_size: u64,
    pub bar0_mask: u64,
    /// Present only when the device exposes shared memory.
    pub bar2: Option<Bar2Plan>,
}

/// Lays out a virtio device on its PCI function: vendor and device identity
/// from the device kind, the MSI-X capability over one vector per queue plus
/// the config vector, the common, ISR, notify, and device-configuration
/// capabilities at their fixed offsets in BAR0, one shared-memory capability
/// per region entry at running offsets in BAR2, and the BAR masks.
pub fn build_transport_plan(
    device_id: DeviceId,
    num_queues: u16,
    device_config_size: u32,
    shared_mem_sizes: &Vec<u64>,
    shared_mem_prefetchable: bool,
) -> (r: TransportPlan)
    requires
        num_queues < 0xffff,
        shared_mem_sizes@.len() <= 255,
        shared_mem_sizes@.len() > 0 ==> 1 <= spec_sum(shared_mem_sizes@) <= 0x4000_0000_0000_0000,
    ensures
        r.vendor == VIRTIO_VENDOR_ID,
        r.device == VIRTIO_DEVICE_ID_BASE + spec_device_id_num(device_id),
        r.subsystem == r.device,
        r.revision == 1,
        r.class == spec_get_class(device_id).0,
        r.subclass == spec_get_class(device_id).1,
        r.table_entries == num_queues + 1,
        r.msix_table_size == 16 * (num_queues + 1),
        r.msix_cap == (MsixCapInfo {
            msg_ctrl: num_queues & 0x7ff,
            table_offset: 0,
            pba_offset: MSIX_PBA_OFFSET,
        }),
        r.cap_common == (VirtioPciCap {
            header: PciCapHdr { id: PCI_CAP_ID_VENDOR, next: 0 },
            cap_len: VIRTIO_PCI_CAP_SIZE,
            cfg_type: 1,
            bar: 0,
            id: 0,
            offset: REGISTER_OFFSET,
            length: 56,
        }),
        r.cap_isr == (VirtioPciCap {
            header: PciCapHdr { id: PCI_CAP_ID_VENDOR, next: 0 },
            cap_len: VIRTIO_PCI_CAP_SIZE,
            cfg_type: 3,
            bar: 0,
            id: 0,
            offset: (REGISTER_OFFSET + 56) as u32,
            length: 4,
        }),
        r.cap_notify == (VirtioPciNotifyCap {
            cap: VirtioPciCap {
                header: PciCapHdr { id: PCI_CAP_ID_VENDOR, next: 0 },
                cap_len: VIRTIO_PCI_NOTIFY_CAP_SIZE,
                cfg_type: 2,
                bar: 0,
                id: 0,
                offset: (REGISTER_OFFSET + 60) as u32,
                length: (4 * num_queues as u32) as u32,
            },
            multiplier: NOTIFY_OFF_MULTIPLIER,
        }),
        r.device_config_offset == REGISTER_OFFSET + 60 + 4 * num_queues as u32,
        device_config_size > 0 ==> r.cap_device == Some(
            (VirtioPciCap {
                header: PciCapHdr { id: PCI_CAP_ID_VENDOR, next: 0 },
                cap_len: VIRTIO_PCI_CAP_SIZE,
                cfg_type: 4,
                bar: 0,
                id: 0,
                offset: (REGISTER_OFFSET + 60 + 4 * num_queues as u32) as u32,
                length: device_config_size,
            }),
        ),
        device_config_size == 0 ==> r.cap_device is None,
        r.shared_mem_caps@.len() == shared_mem_sizes@.len(),
        forall|i: int|
            0 <= i < shared_mem_sizes@.len() ==> r.shared_mem_caps@[i] == spec_shared_mem_cap(
                shared_mem_sizes@,
                i,
            ),
        r.bar0_size == BAR0_SIZE,
        r.bar0_mask == BAR0_MASK,
        shared_mem_sizes@.len() == 0 ==> r.bar2 is None,
        shared_mem_sizes@.len() > 0 ==> r.bar2 == Some(
            (Bar2Plan {
                size: spec_sum(shared_mem_sizes@) as u64,
                mask: spec_bar_mask(spec_sum(shared_mem_sizes@) as nat),
                prefetchable: shared_mem_prefetchable,
            }),
        ),
{
    let num = device_id_num(device_id);
    assert(spec_device_id_num(device_id) <= 26);
    let device: u16 = VIRTIO_DEVICE_ID_BASE + num;
    let (class, subclass) = get_class(device_id);
    let table_entries: u16 = num_queues + 1;

    let mut shared_caps: Vec<VirtioPciCap64> = Vec::new();
    let mut offset: u64 = 0;
    let n = shared_mem_sizes.len();
    let mut i: usize = 0;
    proof {
        assert(shared_mem_sizes@.take(0) =~= Seq::<u64>::empty());
    }
    while i < n
        invariant
            i <= n,
            n == shared_mem_sizes@.len(),
            n <= 255,
            n > 0 ==> spec_sum(shared_mem_sizes@) <= 0x4000_0000_0000_0000,
            offset == spec_sum(shared_mem_sizes@.take(i as int)),
            shared_caps@.len() == i,
            forall|j: int|
                0 <= j < i ==> shared_caps@[j] == spec_shared_mem_cap(shared_mem_sizes@, j),
        decreases n - i,
    {
        let sz = shared_mem_sizes[i];
        proof {
            lemma_sum_take_succ(shared_mem_sizes@, i as int);
            lemma_sum_take_monotonic(shared_mem_sizes@, i as int + 1);
            assert(offset >> 32 <= 0xffff_ffff) by (bit_vector);
            assert(sz >> 32 <= 0xffff_ffff) by (bit_vector);
        }
        let cap = VirtioPciCap64 {
            cap: VirtioPciCap {
                header: PciCapHdr { id: PCI_CAP_ID_VENDOR, next: 0 },
                cap_len: VIRTIO_PCI_CAP64_SIZE,
                cfg_type: 5,
                bar: 2,
                id: i as u8,
                offset: #[verifier::truncate] (offset as u32),
                length: #[verifier::truncate] (sz as u32),
            },
            offset_hi: (offset >> 32) as u32,
            length_hi: (sz >> 32) as u32,
        };
        shared_caps.push(cap);
        offset = offset + sz;
        i = i + 1;
    }
    proof {
        assert(shared_mem_sizes@.take(n as int) =~= shared_mem_sizes@);
    }

    let bar2 = if n > 0 {
        let p = next_power_of_two_u64(offset);
        proof {
            lemma_next_pow2_props(offset as nat);
        }
        Some(Bar2Plan { size: offset, mask: !(p - 1), prefetchable: shared_mem_prefetchable })
    } else {
        None
    };

    let cap_device = if device_config_size > 0 {
        Some(
            VirtioPciCap {
                header: PciCapHdr { id: PCI_CAP_ID_VENDOR, next: 0 },
                cap_len: VIRTIO_PCI_CAP_SIZE,
                cfg_type: 4,
                bar: 0,
                id: 0,
                offset: REGISTER_OFFSET + 60 + 4 * num_queues as u32,
                length: device_config_size,
            },
        )
    } else {
        None
    };

    TransportPlan {
        vendor: VIRTIO_VENDOR_ID,
        device,
        subsystem: device,
        revision: 1,
        class,
        subclass,
        table_entries,
        msix_table_size: 16 * table_entries as u32,
        msix_cap: MsixCapInfo {
            msg_ctrl: (table_entries - 1) & 0x7ff,
            table_offset: 0,
            pba_offset: MSIX_PBA_OFFSET,
        },
        cap_common: VirtioPciCap {
            header: PciCapHdr { id: PCI_CAP_ID_VENDOR, next: 0 },
            cap_len: VIRTIO_PCI_CAP_SIZE,
            cfg_type: 1,
            bar: 0,
            id: 0,
            offset: REGISTER_OFFSET,
            length: 56,
        },
        cap_isr: VirtioPciCap {
            header: PciCapHdr { id: PCI_CAP_ID_VENDOR, next: 0 },
            cap_len: VIRTIO_PCI_CAP_SIZE,
            cfg_type: 3,
            bar: 0,
            id: 0,
            offset: REGISTER_OFFSET + 56,
            length: 4,
        },
        cap_notify: VirtioPciNotifyCap {
            cap: VirtioPciCap {
                header: PciCapHdr { id: PCI_CAP_ID_VENDOR, next: 0 },
                cap_len: VIRTIO_PCI_NOTIFY_CAP_SIZE,
                cfg_type: 2,
                bar: 0,
                id: 0,
                offset: REGISTER_OFFSET + 60,
                length: 4 * num_queues as u32,
            },
            multiplier: NOTIFY_OFF_MULTIPLIER,
        },
        cap_device,
        shared_mem_caps: shared_caps,
        device_config_offset: REGISTER_OFFSET + 60 + 4 * num_queues as u32,
        bar0_size: BAR0_SIZE,
        bar0_mask: BAR0_MASK,
        bar2,
    }
}

/// A sum of unsigned sizes is never negative.
pub proof fn lemma_sum_nonneg(sizes: Seq<u64>)
    ensures
        0 <= spec_sum(sizes),
    decreases sizes.len(),
{
    if sizes.len() > 0 {
        lemma_sum_nonneg(sizes.drop_last());
    }
}

/// Prefix sums of unsigned sizes never shrink.
pub proof fn lemma_sum_take_monotonic(sizes: Seq<u64>, i: int)
    requires
        0 <= i <= sizes.len(),
    ensures
        0 <= spec_sum(sizes.take(i)) <= spec_sum(sizes),
    decreases sizes.len() - i,
{
    lemma_sum_nonneg(sizes.take(i));
    if i == sizes.len() {
        assert(sizes.take(i) =~= sizes);
    } else {
        lemma_sum_take_succ(sizes, i);
        lemma_sum_take_monotonic(sizes, i + 1);
    }
}

} // verus!
