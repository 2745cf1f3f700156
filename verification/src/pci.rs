//! The guest-facing MMIO register model of the virtio PCI transport: the
//! common-configuration layout, the read and write semantics of every
//! register, the transport reset, and the control events a status transition
//! posts towards the worker.

use vstd::prelude::*;
use crate::dev::{Queue, Register, WakeEvent};
use crate::msix::{IrqView, PciIrqSender, VIRTIO_MSI_NO_VECTOR};
use crate::virtio::{STATUS_DRIVER_OK, STATUS_MASK};

verus! {

/// Offset of the device feature selector in the common configuration.
pub const OFFSET_DEVICE_FEATURE_SELECT: usize = 0;

/// Offset of the device feature window.
pub const OFFSET_DEVICE_FEATURE: usize = 4;

/// Offset of the driver feature selector.
pub const OFFSET_DRIVER_FEATURE_SELECT: usize = 8;

/// Offset of the driver feature window.
pub const OFFSET_DRIVER_FEATURE: usize = 12;

/// Offset of the config interrupt's MSI-X vector.
pub const OFFSET_CONFIG_MSIX_VECTOR: usize = 16;

/// Offset of the queue count register.
pub const OFFSET_NUM_QUEUES: usize = 18;

/// Offset of the device status byte.
pub const OFFSET_DEVICE_STATUS: usize = 20;

/// Offset of the config generation counter.
pub const OFFSET_CONFIG_GENERATION: usize = 21;

/// Offset of the queue selector.
pub const OFFSET_QUEUE_SELECT: usize = 22;

/// Offset of the selected queue's size register.
pub const OFFSET_QUEUE_SIZE: usize = 24;

/// Offset of the selected queue's MSI-X vector.
pub const OFFSET_QUEUE_MSIX_VECTOR: usize = 26;

/// Offset of the selected queue's enable register.
pub const OFFSET_QUEUE_ENABLE: usize = 28;

/// Offset of the selected queue's notify offset register.
pub const OFFSET_QUEUE_NOTIFY_OFF: usize = 30;

/// Offset of the low half of the selected queue's descriptor table address.
pub const OFFSET_QUEUE_DESC_LO: usize = 32;

/// Offset of the high half of the selected queue's descriptor table address.
pub const OFFSET_QUEUE_DESC_HI: usize = 36;

/// Offset of the low half of the selected queue's driver area address.
pub const OFFSET_QUEUE_DRIVER_LO: usize = 40;

/// Offset of the high half of the selected queue's driver area address.
pub const OFFSET_QUEUE_DRIVER_HI: usize = 44;

/// Offset of the low half of the selected queue's device area address.
pub const OFFSET_QUEUE_DEVICE_LO: usize = 48;

/// Offset of the high half of the selected queue's device area address.
pub const OFFSET_QUEUE_DEVICE_HI: usize = 52;

/// Size of the common configuration: the virtio 1.x layout of 56 bytes.
pub const COMMON_CFG_SIZE: usize = 56;

/// Offset of the ISR status word, directly after the common configuration.
pub const OFFSET_ISR_STATUS: usize = 56;

/// Offset of the first queue-notify doorbell; queue i's doorbell follows at
/// four-byte stride.
pub const OFFSET_QUEUE_NOTIFY: usize = 60;

/// The virtio 1.x common configuration, field for field in wire order. The
/// register model serves naturally aligned accesses to these fields.
#[derive(Debug, Copy, Clone, PartialEq, Eq, Structural)]
pub struct VirtioCommonCfg {
    pub device_feature_select: u32,
    pub device_feature: u32,
    pub driver_feature_select: u32,
    pub driver_feature: u32,
    pub config_msix_vector: u16,
    pub num_queues: u16,
    pub device_status: u8,
    pub config_generation: u8,
    pub queue_select: u16,
    pub queue_size: u16,
    pub queue_msix_vector: u16,
    pub queue_enable: u16,
    pub queue_notify_off: u16,
    pub queue_desc_lo: u32,
    pub queue_desc_hi: u32,
    pub queue_driver_lo: u32,
    pub queue_driver_hi: u32,
    pub queue_device_lo: u32,
    pub queue_device_hi: u32,
}

/// The whole register region: the common configuration, then the ISR status
/// word, then one four-byte notify doorbell per queue.
#[derive(Debug, Copy, Clone, PartialEq, Eq, Structural)]
pub struct VirtioPciRegister {
    pub common: VirtioCommonCfg,
    pub isr_status: u32,
}

/// The low half of a 64-bit register.
pub open spec fn spec_low32(x: u64) -> u64 {
    x & 0xffff_ffff
}

/// The high half of a 64-bit register.
pub open spec fn spec_high32(x: u64) -> u64 {
    x >> 32
}

/// A 64-bit register with its low half replaced.
pub open spec fn spec_set_low32(x: u64, v: u32) -> u64 {
    (x & 0xffff_ffff_0000_0000) | v as u64
}

/// A 64-bit register with its high half replaced.
pub open spec fn spec_set_high32(x: u64, v: u32) -> u64 {
    (x & 0xffff_ffff) | ((v as u64) << 32)
}

/// What a feature window read returns: the low half under selector 0, the
/// high half under selector 1, zero under any other selector.
pub open spec fn spec_feature_half(feature: u64, sel: u8) -> u64 {
    if sel == 0 {
        spec_low32(feature)
    } else if sel == 1 {
        spec_high32(feature)
    } else {
        0
    }
}

/// The mathematical content of the transport's guest-visible state: the
/// shared register block, the per-queue registers, and the interrupt state.
pub ghost struct TransportView {
    pub reg: Register,
    pub queues: Seq<Queue>,
    pub irq: IrqView,
}

/// Well-formedness of the transport state: the vector map has one slot per
/// queue, and the queue count fits the 16-bit registers that carry it.
pub open spec fn spec_wf(v: TransportView) -> bool {
    &&& v.queues.len() == v.irq.queues.len()
    &&& v.queues.len() <= 0xffff
}

/// The register MMIO region of one virtio PCI device: what the guest reads
/// and writes through BAR0 past the MSI-X table. Reads never fail and writes
/// never fault; unknown offsets read zero and ignore writes.
#[derive(Debug, Clone, PartialEq, Eq)]
pub struct VirtioPciRegisterMmio {
    /// The shared register block.
    pub reg: Register,
    /// The per-queue configuration registers.
    pub queues: Vec<Queue>,
    /// The interrupt state the register model programs and the device reads.
    pub irq_sender: PciIrqSender,
}

impl View for VirtioPciRegisterMmio {
    type V = TransportView;

    open spec fn view(&self) -> TransportView {
        TransportView { reg: self.reg, queues: self.queues@, irq: self.irq_sender@ }
    }
}

/// What a read of the common configuration returns, per offset and access
/// size. Feature windows follow their selectors, per-queue registers follow
/// the queue selector and return zero — or the no-vector value — when it is
/// out of range, the notify-offset register maps queues one to one, and
/// every unknown or misaligned access returns zero.
pub open spec fn spec_read(v: TransportView, offset: int, size: int) -> u64 {
    let sel = v.reg.queue_sel as int;
    if offset == OFFSET_DEVICE_FEATURE_SELECT && size == 4 {
        v.reg.device_feature_sel as u64
    } else if offset == OFFSET_DEVICE_FEATURE && size == 4 {
        spec_feature_half(v.reg.device_feature, v.reg.device_feature_sel)
    } else if offset == OFFSET_DRIVER_FEATURE_SELECT && size == 4 {
        v.reg.driver_feature_sel as u64
    } else if offset == OFFSET_DRIVER_FEATURE && size == 4 {
        spec_feature_half(v.reg.driver_feature, v.reg.driver_feature_sel)
    } else if offset == OFFSET_CONFIG_MSIX_VECTOR && size == 2 {
        v.irq.config as u64
    } else if offset == OFFSET_NUM_QUEUES && size == 2 {
        v.queues.len() as u64
    } else if offset == OFFSET_DEVICE_STATUS && size == 1 {
        v.reg.status as u64
    } else if offset == OFFSET_CONFIG_GENERATION && size == 1 {
        0
    } else if offset == OFFSET_QUEUE_SELECT && size == 2 {
        v.reg.queue_sel as u64
    } else if offset == OFFSET_QUEUE_SIZE && size == 2 {
        if sel < v.queues.len() {
            v.queues[sel].size as u64
        } else {
            0
        }
    } else if offset == OFFSET_QUEUE_MSIX_VECTOR && size == 2 {
        if sel < v.irq.queues.len() {
            v.irq.queues[sel] as u64
        } else {
            VIRTIO_MSI_NO_VECTOR as u64
        }
    } else if offset == OFFSET_QUEUE_ENABLE && size == 2 {
        if sel < v.queues.len() {
            if v.queues[sel].enabled {
                1
            } else {
                0
            }
        } else {
            0
        }
    } else if offset == OFFSET_QUEUE_NOTIFY_OFF && size == 2 {
        v.reg.queue_sel as u64
    } else if offset == OFFSET_QUEUE_DESC_LO && size == 4 {
        if sel < v.queues.len() {
            spec_low32(v.queues[sel].desc)
        } else {
            0
        }
    } else if offset == OFFSET_QUEUE_DESC_HI && size == 4 {
        if sel < v.queues.len() {
            spec_high32(v.queues[sel].desc)
        } else {
            0
        }
    } else if offset == OFFSET_QUEUE_DRIVER_LO && size == 4 {
        if sel < v.queues.len() {
            spec_low32(v.queues[sel].driver)
        } else {
            0
        }
    } else if offset == OFFSET_QUEUE_DRIVER_HI && size == 4 {
        if sel < v.queues.len() {
            spec_high32(v.queues[sel].driver)
        } else {
            0
        }
    } else if offset == OFFSET_QUEUE_DEVICE_LO && size == 4 {
        if sel < v.queues.len() {
            spec_low32(v.queues[sel].device)
        } else {
            0
        }
    } else if offset == OFFSET_QUEUE_DEVICE_HI && size == 4 {
        if sel < v.queues.len() {
            spec_high32(v.queues[sel].device)
        } else {
            0
        }
    } else {
        0
    }
}

/// The transport part of a reset: every MSI-X vector slot returns to
/// no-vector and every queue's enable flag falls; the register block, the
/// queue sizes and addresses, and the vector table entries stay.
pub open spec fn spec_transport_reset(v: TransportView) -> TransportView {
    TransportView {
        reg: v.reg,
        queues: Seq::new(v.queues.len(), |i: int| Queue { enabled: false, ..v.queues[i] }),
        irq: IrqView {
            config: VIRTIO_MSI_NO_VECTOR,
            queues: Seq::new(v.irq.queues.len(), |i: int| VIRTIO_MSI_NO_VECTOR),
            entries: v.irq.entries,
        },
    }
}

/// A status write: the defined status bits are stored; when the write moves
/// the DRIVER_OK bit, the rising edge posts Start carrying the driver-feature
/// snapshot, and the falling edge first resets the transport and then posts
/// Reset.
pub open spec fn spec_write_status(v: TransportView, val: u64) -> (TransportView, Option<
    WakeEvent,
>) {
    let new_s = (val as u8) & STATUS_MASK;
    let old_s = v.reg.status;
    let base = TransportView { reg: Register { status: new_s, ..v.reg }, ..v };
    if (old_s ^ new_s) & STATUS_DRIVER_OK != 0 {
        if new_s & STATUS_DRIVER_OK != 0 {
            (base, Some(WakeEvent::Start { feature: v.reg.driver_feature }))
        } else {
            (spec_transport_reset(base), Some(WakeEvent::Reset))
        }
    } else {
        (base, None)
    }
}

/// What a write to the register region does: the state afterwards and the
/// control event it posts, per offset and access size. Selector writes keep
/// the selector's width, per-queue writes go to the selected queue and are
/// ignored when the selector is out of range, a status write follows
/// `spec_write_status`, a doorbell write posts a kick of that doorbell's
/// queue, and every unknown or misaligned access changes nothing.
pub open spec fn spec_write(v: TransportView, offset: int, size: int, val: u64) -> (
    TransportView,
    Option<WakeEvent>,
) {
    let sel = v.reg.queue_sel as int;
    if offset == OFFSET_DEVICE_FEATURE_SELECT && size == 4 {
        (TransportView { reg: Register { device_feature_sel: val as u8, ..v.reg }, ..v }, None)
    } else if offset == OFFSET_DRIVER_FEATURE_SELECT && size == 4 {
        (TransportView { reg: Register { driver_feature_sel: val as u8, ..v.reg }, ..v }, None)
    } else if offset == OFFSET_DRIVER_FEATURE && size == 4 {
        let df = if v.reg.driver_feature_sel > 0 {
            spec_set_high32(v.reg.driver_feature, val as u32)
        } else {
            spec_set_low32(v.reg.driver_feature, val as u32)
        };
        (TransportView { reg: Register { driver_feature: df, ..v.reg }, ..v }, None)
    } else if offset == OFFSET_CONFIG_MSIX_VECTOR && size == 2 {
        (TransportView { irq: IrqView { config: val as u16, ..v.irq }, ..v }, None)
    } else if offset == OFFSET_DEVICE_STATUS && size == 1 {
        spec_write_status(v, val)
    } else if offset == OFFSET_QUEUE_SELECT && size == 2 {
        (TransportView { reg: Register { queue_sel: val as u16, ..v.reg }, ..v }, None)
    } else if offset == OFFSET_QUEUE_SIZE && size == 2 {
        if sel < v.queues.len() {
            (
                TransportView {
                    queues: v.queues.update(sel, Queue { size: val as u16, ..v.queues[sel] }),
                    ..v
                },
                None,
            )
        } else {
            (v, None)
        }
    } else if offset == OFFSET_QUEUE_MSIX_VECTOR && size == 2 {
        if sel < v.irq.queues.len() {
            (
                TransportView {
                    irq: IrqView { queues: v.irq.queues.update(sel, val as u16), ..v.irq },
                    ..v
                },
                None,
            )
        } else {
            (v, None)
        }
    } else if offset == OFFSET_QUEUE_ENABLE && size == 2 {
        if sel < v.queues.len() {
            (
                TransportView {
                    queues: v.queues.update(sel, Queue { enabled: val != 0, ..v.queues[sel] }),
                    ..v
                },
                None,
            )
        } else {
            (v, None)
        }
    } else if offset == OFFSET_QUEUE_DESC_LO && size == 4 {
        if sel < v.queues.len() {
            (
                TransportView {
                    queues: v.queues.update(
                        sel,
                        Queue { desc: spec_set_low32(v.queues[sel].desc, val as u32), ..v.queues[sel] },
                    ),
                    ..v
                },
                None,
            )
        } else {
            (v, None)
        }
    } else if offset == OFFSET_QUEUE_DESC_HI && size == 4 {
        if sel < v.queues.len() {
            (
                TransportView {
                    queues: v.queues.update(
                        sel,
                        Queue { desc: spec_set_high32(v.queues[sel].desc, val as u32), ..v.queues[sel] },
                    ),
                    ..v
                },
                None,
            )
        } else {
            (v, None)
        }
    } else if offset == OFFSET_QUEUE_DRIVER_LO && size == 4 {
        if sel < v.queues.len() {
            (
                TransportView {
                    queues: v.queues.update(
                        sel,
                        Queue {
                            driver: spec_set_low32(v.queues[sel].driver, val as u32),
                            ..v.queues[sel]
                        },
                    ),
                    ..v
                },
                None,
            )
        } else {
            (v, None)
        }
    } else if offset == OFFSET_QUEUE_DRIVER_HI && size == 4 {
        if sel < v.queues.len() {
            (
                TransportView {
                    queues: v.queues.update(
                        sel,
                        Queue {
                            driver: spec_set_high32(v.queues[sel].driver, val as u32),
                            ..v.queues[sel]
                        },
                    ),
                    ..v
                },
                None,
            )
        } else {
            (v, None)
        }
    } else if offset == OFFSET_QUEUE_DEVICE_LO && size == 4 {
        if sel < v.queues.len() {
            (
                TransportView {
                    queues: v.queues.update(
                        sel,
                        Queue {
                            device: spec_set_low32(v.queues[sel].device, val as u32),
                            ..v.queues[sel]
                        },
                    ),
                    ..v
                },
                None,
            )
        } else {
            (v, None)
        }
    } else if offset == OFFSET_QUEUE_DEVICE_HI && size == 4 {
        if sel < v.queues.len() {
            (
                TransportView {
                    queues: v.queues.update(
                        sel,
                        Queue {
                            device: spec_set_high32(v.queues[sel].device, val as u32),
                            ..v.queues[sel]
                        },
                    ),
                    ..v
                },
                None,
            )
        } else {
            (v, None)
        }
    } else if OFFSET_QUEUE_NOTIFY <= offset < OFFSET_QUEUE_NOTIFY + 4 * v.queues.len() && (offset
        - OFFSET_QUEUE_NOTIFY) % 4 == 0 {
        (v, Some(WakeEvent::Notify { q_index: ((offset - OFFSET_QUEUE_NOTIFY) / 4) as u16 }))
    } else {
        (v, None)
    }
}

impl VirtioPciRegisterMmio {
    /// Well-formedness: the vector map is one slot per queue and the queue
    /// count fits its registers.
    pub open spec fn wf(&self) -> bool {
        spec_wf(self@)
    }

    /// Builds the register region of a fresh device: advertised features set,
    /// everything else at its initial value, one queue register block and one
    /// vector slot per queue, and a vector table with one entry per queue
    /// plus one for the config interrupt.
    pub fn new(device_feature: u64, num_queues: u16) -> (r: VirtioPciRegisterMmio)
        requires
            num_queues < 0xffff,
        ensures
            r.wf(),
            r@.reg == crate::dev::spec_initial_register(device_feature),
            r@.queues.len() == num_queues,
            forall|i: int| 0 <= i < num_queues ==> r@.queues[i] == crate::dev::spec_initial_queue(),
            r@.irq.config == VIRTIO_MSI_NO_VECTOR,
            forall|i: int| 0 <= i < num_queues ==> r@.irq.queues[i] == VIRTIO_MSI_NO_VECTOR,
            r@.irq.entries.len() == num_queues + 1,
    {
        VirtioPciRegisterMmio {
            reg: Register::new(device_feature),
            queues: crate::dev::initial_queues(num_queues),
            irq_sender: PciIrqSender::new(num_queues, num_queues + 1),
        }
    }

    /// The size of the register region: the common configuration, the ISR
    /// word, and one doorbell per queue.
    pub fn size(&self) -> (r: usize)
        requires
            self.wf(),
        ensures
            r == OFFSET_QUEUE_NOTIFY + 4 * self@.queues.len(),
    {
        OFFSET_QUEUE_NOTIFY + 4 * self.queues.len()
    }

    /// Clears every MSI-X vector slot and every queue's enable flag: the
    /// transport-owned part of a device reset. Runs before the worker can
    /// observe the Reset event, so a racing interrupt finds no vector.
    pub fn reset(&mut self)
        requires
            old(self).wf(),
        ensures
            final(self)@ == spec_transport_reset(old(self)@),
            final(self).wf(),
    {
        self.irq_sender.msix_vector.config = VIRTIO_MSI_NO_VECTOR;
        let n = self.irq_sender.msix_vector.queues.len();
        let mut i: usize = 0;
        while i < n
            invariant
                i <= n,
                n == self.irq_sender.msix_vector.queues@.len(),
                self.reg == old(self).reg,
                self.queues@ == old(self).queues@,
                self.irq_sender.msix_entries@ == old(self).irq_sender.msix_entries@,
                self.irq_sender.msix_vector.config == VIRTIO_MSI_NO_VECTOR,
                forall|j: int|
                    0 <= j < i ==> self.irq_sender.msix_vector.queues@[j] == VIRTIO_MSI_NO_VECTOR,
                forall|j: int|
                    i <= j < n ==> self.irq_sender.msix_vector.queues@[j] == old(
                        self,
                    ).irq_sender.msix_vector.queues@[j],
            decreases n - i,
        {
            self.irq_sender.msix_vector.queues[i] = VIRTIO_MSI_NO_VECTOR;
            i = i + 1;
        }
        let m = self.queues.len();
        let mut k: usize = 0;
        while k < m
            invariant
                k <= m,
                m == self.queues@.len(),
                self.reg == old(self).reg,
                self.irq_sender.msix_entries@ == old(self).irq_sender.msix_entries@,
                self.irq_sender.msix_vector.config == VIRTIO_MSI_NO_VECTOR,
                self.irq_sender.msix_vector.queues@.len() == old(
                    self,
                ).irq_sender.msix_vector.queues@.len(),
                forall|j: int|
                    0 <= j < self.irq_sender.msix_vector.queues@.len()
                        ==> self.irq_sender.msix_vector.queues@[j] == VIRTIO_MSI_NO_VECTOR,
                forall|j: int|
                    0 <= j < k ==> self.queues@[j] == (Queue {
                        enabled: false,
                        ..old(self).queues@[j]
                    }),
                forall|j: int| k <= j < m ==> self.queues@[j] == old(self).queues@[j],
            decreases m - k,
        {
            self.queues[k].enabled = false;
            k = k + 1;
        }
        proof {
            assert(self.queues@ =~= Seq::new(
                old(self).queues@.len(),
                |i: int| Queue { enabled: false, ..old(self).queues@[i] },
            ));
            assert(self.irq_sender.msix_vector.queues@ =~= Seq::new(
                old(self).irq_sender.msix_vector.queues@.len(),
                |i: int| VIRTIO_MSI_NO_VECTOR,
            ));
        }
    }

    /// The PCI-level reset of the function: performs the transport reset,
    /// clears the status byte, and hands back the Reset event to post to the
    /// worker.
    pub fn bus_reset(&mut self) -> (ev: WakeEvent)
        requires
            old(self).wf(),
        ensures
            final(self)@ == (TransportView {
                reg: Register { status: 0, ..old(self)@.reg },
                ..spec_transport_reset(old(self)@)
            }),
            ev == WakeEvent::Reset,
            final(self).wf(),
    {
        self.reset();
        self.reg.status = 0;
        WakeEvent::Reset
    }

    /// Reads a register: returns exactly what `spec_read` gives for the
    /// offset and access size. Never fails; unknown offsets read zero.
    pub fn read(&self, offset: usize, size: u8) -> (r: u64)
        requires
            self.wf(),
        ensures
            r == spec_read(self@, offset as int, size as int),
    {
        let sel = self.reg.queue_sel as usize;
        if offset == OFFSET_DEVICE_FEATURE_SELECT && size == 4 {
            self.reg.device_feature_sel as u64
        } else if offset == OFFSET_DEVICE_FEATURE && size == 4 {
            self.feature_half(self.reg.device_feature, self.reg.device_feature_sel)
        } else if offset == OFFSET_DRIVER_FEATURE_SELECT && size == 4 {
            self.reg.driver_feature_sel as u64
        } else if offset == OFFSET_DRIVER_FEATURE && size == 4 {
            self.feature_half(self.reg.driver_feature, self.reg.driver_feature_sel)
        } else if offset == OFFSET_CONFIG_MSIX_VECTOR && size == 2 {
            self.irq_sender.msix_vector.config as u64
        } else if offset == OFFSET_NUM_QUEUES && size == 2 {
            self.queues.len() as u64
        } else if offset == OFFSET_DEVICE_STATUS && size == 1 {
            self.reg.status as u64
        } else if offset == OFFSET_CONFIG_GENERATION && size == 1 {
            0
        } else if offset == OFFSET_QUEUE_SELECT && size == 2 {
            self.reg.queue_sel as u64
        } else if offset == OFFSET_QUEUE_SIZE && size == 2 {
            if sel < self.queues.len() {
                self.queues[sel].size as u64
            } else {
                0
            }
        } else if offset == OFFSET_QUEUE_MSIX_VECTOR && size == 2 {
            if sel < self.irq_sender.msix_vector.queues.len() {
                self.irq_sender.msix_vector.queues[sel] as u64
            } else {
                VIRTIO_MSI_NO_VECTOR as u64
            }
        } else if offset == OFFSET_QUEUE_ENABLE && size == 2 {
            if sel < self.queues.len() {
                if self.queues[sel].enabled {
                    1
                } else {
                    0
                }
            } else {
                0
            }
        } else if offset == OFFSET_QUEUE_NOTIFY_OFF && size == 2 {
            self.reg.queue_sel as u64
        } else if offset == OFFSET_QUEUE_DESC_LO && size == 4 {
            if sel < self.queues.len() {
                self.queues[sel].desc & 0xffff_ffff
            } else {
                0
            }
        } else if offset == OFFSET_QUEUE_DESC_HI && size == 4 {
            if sel < self.queues.len() {
                self.queues[sel].desc >> 32
            } else {
                0
            }
        } else if offset == OFFSET_QUEUE_DRIVER_LO && size == 4 {
            if sel < self.queues.len() {
                self.queues[sel].driver & 0xffff_ffff
            } else {
                0
            }
        } else if offset == OFFSET_QUEUE_DRIVER_HI && size == 4 {
            if sel < self.queues.len() {
                self.queues[sel].driver >> 32
            } else {
                0
            }
        } else if offset == OFFSET_QUEUE_DEVICE_LO && size == 4 {
            if sel < self.queues.len() {
                self.queues[sel].device & 0xffff_ffff
            } else {
                0
            }
        } else if offset == OFFSET_QUEUE_DEVICE_HI && size == 4 {
            if sel < self.queues.len() {
                self.queues[sel].device >> 32
            } else {
                0
            }
        } else {
            0
        }
    }

    /// A feature window read under a selector.
    fn feature_half(&self, feature: u64, sel: u8) -> (r: u64)
        ensures
            r == spec_feature_half(feature, sel),
    {
        if sel == 0 {
            feature & 0xffff_ffff
        } else if sel == 1 {
            feature >> 32
        } else {
            0
        }
    }

    /// Writes a register: updates the state and returns the control event to
    /// post towards the worker, exactly as `spec_write` gives for the offset
    /// and access size. Never fails; unknown offsets ignore the write.
    pub fn write(&mut self, offset: usize, size: u8, val: u64) -> (ev: Option<WakeEvent>)
        requires
            old(self).wf(),
        ensures
            final(self)@ == spec_write(old(self)@, offset as int, size as int, val).0,
            ev == spec_write(old(self)@, offset as int, size as int, val).1,
            final(self).wf(),
    {
        let sel = self.reg.queue_sel as usize;
        if offset == OFFSET_DEVICE_FEATURE_SELECT && size == 4 {
            self.reg.device_feature_sel = #[verifier::truncate] (val as u8);
            None
        } else if offset == OFFSET_DRIVER_FEATURE_SELECT && size == 4 {
            self.reg.driver_feature_sel = #[verifier::truncate] (val as u8);
            None
        } else if offset == OFFSET_DRIVER_FEATURE && size == 4 {
            let half = #[verifier::truncate] (val as u32);
            if self.reg.driver_feature_sel > 0 {
                self.reg.driver_feature = (self.reg.driver_feature & 0xffff_ffff) | ((half
                    as u64) << 32);
            } else {
                self.reg.driver_feature = (self.reg.driver_feature & 0xffff_ffff_0000_0000) | half
                    as u64;
            }
            None
        } else if offset == OFFSET_CONFIG_MSIX_VECTOR && size == 2 {
            self.irq_sender.msix_vector.config = #[verifier::truncate] (val as u16);
            None
        } else if offset == OFFSET_DEVICE_STATUS && size == 1 {
            let new_s = (#[verifier::truncate] (val as u8)) & STATUS_MASK;
            let old_s = self.reg.status;
            self.reg.status = new_s;
            if (old_s ^ new_s) & STATUS_DRIVER_OK != 0 {
                if new_s & STATUS_DRIVER_OK != 0 {
                    Some(WakeEvent::Start { feature: self.reg.driver_feature })
                } else {
                    self.reset();
                    Some(WakeEvent::Reset)
                }
            } else {
                None
            }
        } else if offset == OFFSET_QUEUE_SELECT && size == 2 {
            self.reg.queue_sel = #[verifier::truncate] (val as u16);
            None
        } else if offset == OFFSET_QUEUE_SIZE && size == 2 {
            if sel < self.queues.len() {
                self.queues[sel].size = #[verifier::truncate] (val as u16);
            }
            None
        } else if offset == OFFSET_QUEUE_MSIX_VECTOR && size == 2 {
            if sel < self.irq_sender.msix_vector.queues.len() {
                self.irq_sender.msix_vector.queues[sel] = #[verifier::truncate] (val as u16);
            }
            None
        } else if offset == OFFSET_QUEUE_ENABLE && size == 2 {
            if sel < self.queues.len() {
                self.queues[sel].enabled = val != 0;
            }
            None
        } else if offset == OFFSET_QUEUE_DESC_LO && size == 4 {
            if sel < self.queues.len() {
                let half = #[verifier::truncate] (val as u32);
                self.queues[sel].desc = (self.queues[sel].desc & 0xffff_ffff_0000_0000) | half
                    as u64;
            }
            None
        } else if offset == OFFSET_QUEUE_DESC_HI && size == 4 {
            if sel < self.queues.len() {
                let half = #[verifier::truncate] (val as u32);
                self.queues[sel].desc = (self.queues[sel].desc & 0xffff_ffff) | ((half
                    as u64) << 32);
            }
            None
        } else if offset == OFFSET_QUEUE_DRIVER_LO && size == 4 {
            if sel < self.queues.len() {
                let half = #[verifier::truncate] (val as u32);
                self.queues[sel].driver = (self.queues[sel].driver & 0xffff_ffff_0000_0000) | half
                    as u64;
            }
            None
        } else if offset == OFFSET_QUEUE_DRIVER_HI && size == 4 {
            if sel < self.queues.len() {
                let half = #[verifier::truncate] (val as u32);
                self.queues[sel].driver = (self.queues[sel].driver & 0xffff_ffff) | ((half
                    as u64) << 32);
            }
            None
        } else if offset == OFFSET_QUEUE_DEVICE_LO && size == 4 {
            if sel < self.queues.len() {
                let half = #[verifier::truncate] (val as u32);
                self.queues[sel].device = (self.queues[sel].device & 0xffff_ffff_0000_0000) | half
                    as u64;
            }
            None
        } else if offset == OFFSET_QUEUE_DEVICE_HI && size == 4 {
            if sel < self.queues.len() {
                let half = #[verifier::truncate] (val as u32);
                self.queues[sel].device = (self.queues[sel].device & 0xffff_ffff) | ((half
                    as u64) << 32);
            }
            None
        } else if OFFSET_QUEUE_NOTIFY <= offset && offset < OFFSET_QUEUE_NOTIFY + 4
            * self.queues.len() && (offset - OFFSET_QUEUE_NOTIFY) % 4 == 0 {
            let q_index = (offset - OFFSET_QUEUE_NOTIFY) / 4;
            Some(WakeEvent::Notify { q_index: q_index as u16 })
        } else {
            None
        }
    }
}

/// How the half-register writes compose: setting one half of a 64-bit
/// register keeps the other half, reads of a half return what was set, and
/// setting both halves yields exactly their concatenation.
pub proof fn lemma_half_registers(x: u64, a: u32, b: u32)
    ensures
        spec_low32(spec_set_low32(x, a)) == a as u64,
        spec_high32(spec_set_low32(x, a)) == spec_high32(x),
        spec_low32(spec_set_high32(x, b)) == spec_low32(x),
        spec_high32(spec_set_high32(x, b)) == b as u64,
        spec_set_high32(spec_set_low32(x, a), b) == ((b as u64) << 32) | a as u64,
        spec_low32(((b as u64) << 32) | a as u64) == a as u64,
        spec_high32(((b as u64) << 32) | a as u64) == b as u64,
{
    assert(((x & 0xffff_ffff_0000_0000) | a as u64) & 0xffff_ffff == a as u64
        && ((x & 0xffff_ffff_0000_0000) | a as u64) >> 32 == x >> 32
        && ((x & 0xffff_ffff) | ((b as u64) << 32)) & 0xffff_ffff == x & 0xffff_ffff
        && ((x & 0xffff_ffff) | ((b as u64) << 32)) >> 32 == b as u64
        && ((((x & 0xffff_ffff_0000_0000) | a as u64) & 0xffff_ffff) | ((b as u64) << 32)) == ((b
        as u64) << 32) | a as u64
        && (((b as u64) << 32) | a as u64) & 0xffff_ffff == a as u64
        && (((b as u64) << 32) | a as u64) >> 32 == b as u64) by (bit_vector);
}

/// Writing a status without DRIVER_OK while DRIVER_OK was set posts exactly
/// one Reset event, and immediately afterwards every MSI-X vector slot reads
/// back as no-vector and every queue's enable flag reads back as zero,
/// whichever queue the guest then selects.
pub proof fn lemma_clearing_driver_ok_resets(v: TransportView, val: u64)
    requires
        spec_wf(v),
        crate::virtio::spec_driver_ok(v.reg.status),
        (val as u8) & STATUS_MASK & STATUS_DRIVER_OK == 0,
    ensures
        spec_write(v, OFFSET_DEVICE_STATUS as int, 1, val).1 == Some(WakeEvent::Reset),
        forall|i: u16|
            i < v.queues.len() ==> #[trigger] spec_read(
                spec_write(
                    spec_write(v, OFFSET_DEVICE_STATUS as int, 1, val).0,
                    OFFSET_QUEUE_SELECT as int,
                    2,
                    i as u64,
                ).0,
                OFFSET_QUEUE_MSIX_VECTOR as int,
                2,
            ) == VIRTIO_MSI_NO_VECTOR as u64,
        forall|i: u16|
            i < v.queues.len() ==> #[trigger] spec_read(
                spec_write(
                    spec_write(v, OFFSET_DEVICE_STATUS as int, 1, val).0,
                    OFFSET_QUEUE_SELECT as int,
                    2,
                    i as u64,
                ).0,
                OFFSET_QUEUE_ENABLE as int,
                2,
            ) == 0,
{
    let old_s = v.reg.status;
    let new_s = (val as u8) & STATUS_MASK;
    assert(old_s & STATUS_DRIVER_OK != 0 && new_s & STATUS_DRIVER_OK == 0 ==> (old_s ^ new_s)
        & STATUS_DRIVER_OK != 0) by (bit_vector);
    assert((val as u8) & STATUS_MASK & STATUS_DRIVER_OK == 0 ==> ((val as u8) & STATUS_MASK)
        & STATUS_DRIVER_OK == 0) by (bit_vector);
    let v1 = spec_write(v, OFFSET_DEVICE_STATUS as int, 1, val).0;
    assert forall|i: u16| i < v.queues.len() implies #[trigger] spec_read(
        spec_write(v1, OFFSET_QUEUE_SELECT as int, 2, i as u64).0,
        OFFSET_QUEUE_MSIX_VECTOR as int,
        2,
    ) == VIRTIO_MSI_NO_VECTOR as u64 && spec_read(
        spec_write(v1, OFFSET_QUEUE_SELECT as int, 2, i as u64).0,
        OFFSET_QUEUE_ENABLE as int,
        2,
    ) == 0 by {
        assert((i as u64) as u16 == i) by (bit_vector);
    }
}

/// Writing a status with DRIVER_OK while DRIVER_OK was clear posts exactly
/// one Start event, carrying the driver-feature snapshot as it stood at the
/// write; nothing changes but the status byte.
pub proof fn lemma_raising_driver_ok_starts(v: TransportView, val: u64)
    requires
        spec_wf(v),
        !crate::virtio::spec_driver_ok(v.reg.status),
        (val as u8) & STATUS_MASK & STATUS_DRIVER_OK != 0,
    ensures
        spec_write(v, OFFSET_DEVICE_STATUS as int, 1, val).1 == Some(
            WakeEvent::Start { feature: v.reg.driver_feature },
        ),
        spec_write(v, OFFSET_DEVICE_STATUS as int, 1, val).0 == (TransportView {
            reg: Register { status: (val as u8) & STATUS_MASK, ..v.reg },
            ..v
        }),
{
    let old_s = v.reg.status;
    let new_s = (val as u8) & STATUS_MASK;
    assert(old_s & STATUS_DRIVER_OK == 0 && new_s & STATUS_DRIVER_OK != 0 ==> (old_s ^ new_s)
        & STATUS_DRIVER_OK != 0) by (bit_vector);
}

/// A status write that does not move DRIVER_OK posts no event and changes
/// nothing but the status byte.
pub proof fn lemma_status_write_without_edge(v: TransportView, val: u64)
    requires
        spec_wf(v),
        crate::virtio::spec_driver_ok(v.reg.status) == crate::virtio::spec_driver_ok(
            ((val as u8) & STATUS_MASK) as u8,
        ),
    ensures
        spec_write(v, OFFSET_DEVICE_STATUS as int, 1, val).1 is None,
        spec_write(v, OFFSET_DEVICE_STATUS as int, 1, val).0 == (TransportView {
            reg: Register { status: (val as u8) & STATUS_MASK, ..v.reg },
            ..v
        }),
{
    let old_s = v.reg.status;
    let new_s = (val as u8) & STATUS_MASK;
    assert((old_s & STATUS_DRIVER_OK == 0 <==> new_s & STATUS_DRIVER_OK == 0) ==> (old_s ^ new_s)
        & STATUS_DRIVER_OK == 0) by (bit_vector);
}

/// Selecting queue i and then reading the low descriptor-address register
/// returns the low 32 bits of what was last written there for queue i, for
/// every queue the device has.
pub proof fn lemma_queue_desc_lo_round_trip(v: TransportView, i: u16, val: u64)
    requires
        spec_wf(v),
        i < v.queues.len(),
    ensures
        spec_read(
            spec_write(
                spec_write(v, OFFSET_QUEUE_SELECT as int, 2, i as u64).0,
                OFFSET_QUEUE_DESC_LO as int,
                4,
                val,
            ).0,
            OFFSET_QUEUE_DESC_LO as int,
            4,
        ) == (val as u32) as u64,
{
    assert((i as u64) as u16 == i) by (bit_vector);
    let v1 = spec_write(v, OFFSET_QUEUE_SELECT as int, 2, i as u64).0;
    let v2 = spec_write(v1, OFFSET_QUEUE_DESC_LO as int, 4, val).0;
    lemma_half_registers(v.queues[i as int].desc, val as u32, 0);
}

/// The driver-feature selector round trip: writing the low half under
/// selector 0 and the high half under selector 1 leaves the full
/// driver-feature register holding their concatenation, and each half reads
/// back unchanged under its selector.
pub proof fn lemma_feature_selector_round_trip(v: TransportView, x: u32, y: u32)
    requires
        spec_wf(v),
    ensures
        ({
            let v1 = spec_write(v, OFFSET_DRIVER_FEATURE_SELECT as int, 4, 0).0;
            let v2 = spec_write(v1, OFFSET_DRIVER_FEATURE as int, 4, x as u64).0;
            let v3 = spec_write(v2, OFFSET_DRIVER_FEATURE_SELECT as int, 4, 1).0;
            let v4 = spec_write(v3, OFFSET_DRIVER_FEATURE as int, 4, y as u64).0;
            &&& v4.reg.driver_feature == ((y as u64) << 32) | x as u64
            &&& spec_read(
                spec_write(v4, OFFSET_DRIVER_FEATURE_SELECT as int, 4, 0).0,
                OFFSET_DRIVER_FEATURE as int,
                4,
            ) == x as u64
            &&& spec_read(
                spec_write(v4, OFFSET_DRIVER_FEATURE_SELECT as int, 4, 1).0,
                OFFSET_DRIVER_FEATURE as int,
                4,
            ) == y as u64
        }),
{
    assert((0u64 as u8) == 0 && (1u64 as u8) == 1) by (bit_vector);
    assert(((x as u64) as u32) == x && ((y as u64) as u32) == y) by (bit_vector);
    lemma_half_registers(v.reg.driver_feature, x, y);
}

/// After the transport part of a reset no interrupt is delivered: every
/// vector slot is the no-vector value, so config and queue interrupts raised
/// by a racing device are dropped rather than sent to stale addresses.
pub proof fn lemma_reset_drops_interrupts(v: TransportView)
    requires
        spec_wf(v),
    ensures
        crate::msix::spec_all_vectors_cleared(spec_transport_reset(v).irq),
        crate::msix::spec_config_irq(spec_transport_reset(v).irq) is None,
        forall|q_index: u16|
            crate::msix::spec_queue_irq(spec_transport_reset(v).irq, q_index) is None,
{
    crate::msix::lemma_cleared_vectors_drop_interrupts(spec_transport_reset(v).irq);
}

/// Whether an offset and access size land on a register the write path
/// handles: a defined common-configuration register or a notify doorbell.
pub open spec fn spec_handled_write(v: TransportView, offset: int, size: int) -> bool {
    ||| offset == OFFSET_DEVICE_FEATURE_SELECT && size == 4
    ||| offset == OFFSET_DRIVER_FEATURE_SELECT && size == 4
    ||| offset == OFFSET_DRIVER_FEATURE && size == 4
    ||| offset == OFFSET_CONFIG_MSIX_VECTOR && size == 2
    ||| offset == OFFSET_DEVICE_STATUS && size == 1
    ||| offset == OFFSET_QUEUE_SELECT && size == 2
    ||| offset == OFFSET_QUEUE_SIZE && size == 2
    ||| offset == OFFSET_QUEUE_MSIX_VECTOR && size == 2
    ||| offset == OFFSET_QUEUE_ENABLE && size == 2
    ||| offset == OFFSET_QUEUE_DESC_LO && size == 4
    ||| offset == OFFSET_QUEUE_DESC_HI && size == 4
    ||| offset == OFFSET_QUEUE_DRIVER_LO && size == 4
    ||| offset == OFFSET_QUEUE_DRIVER_HI && size == 4
    ||| offset == OFFSET_QUEUE_DEVICE_LO && size == 4
    ||| offset == OFFSET_QUEUE_DEVICE_HI && size == 4
    ||| (OFFSET_QUEUE_NOTIFY <= offset < OFFSET_QUEUE_NOTIFY + 4 * v.queues.len() && (offset
        - OFFSET_QUEUE_NOTIFY) % 4 == 0)
}

/// A write to any offset the model does not handle alters no observable
/// state and posts no event, and such an offset reads back zero: the guest
/// can probe unknown registers without disturbing the device.
pub proof fn lemma_unknown_offset_inert(v: TransportView, offset: int, size: int, val: u64)
    requires
        spec_wf(v),
        !spec_handled_write(v, offset, size),
    ensures
        spec_write(v, offset, size, val).0 == v,
        spec_write(v, offset, size, val).1 is None,
{
}

} // verus!
