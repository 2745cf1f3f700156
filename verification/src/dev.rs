//! The device side of the transport: the shared register block, the per-queue
//! configuration registers, the control events the register model posts to
//! the worker, the worker's poll-token encoding, and the worker's lifecycle
//! state machine.

use vstd::prelude::*;
use std::sync::Arc;
use crate::virtio::VirtioError;

verus! {

/// The largest virtqueue size this transport offers; every queue starts at
/// this size until the guest programs a smaller one.
pub const QUEUE_SIZE_MAX: u16 = 256;

/// The guest-programmable configuration registers of one virtqueue.
#[derive(Debug, Copy, Clone, PartialEq, Eq, Structural)]
pub struct Queue {
    /// Ring size in descriptors.
    pub size: u16,
    /// Whether the guest has enabled the queue.
    pub enabled: bool,
    /// Guest physical address of the descriptor table.
    pub desc: u64,
    /// Guest physical address of the driver area (available ring).
    pub driver: u64,
    /// Guest physical address of the device area (used ring).
    pub device: u64,
}

/// The initial value of one queue's registers: maximum size, disabled, all
/// addresses zero.
pub open spec fn spec_initial_queue() -> Queue {
    Queue { size: QUEUE_SIZE_MAX, enabled: false, desc: 0, driver: 0, device: 0 }
}

/// Builds the per-queue register blocks a device starts with: one per queue,
/// each at the default value.
pub fn initial_queues(num_queues: u16) -> (r: Vec<Queue>)
    ensures
        r@.len() == num_queues,
        forall|i: int| 0 <= i < num_queues ==> r@[i] == spec_initial_queue(),
{
    let mut regs: Vec<Queue> = Vec::new();
    let mut i: u16 = 0;
    while i < num_queues
        invariant
            i <= num_queues,
            regs@.len() == i,
            forall|j: int| 0 <= j < i ==> regs@[j] == spec_initial_queue(),
        decreases num_queues - i,
    {
        regs.push(Queue { size: QUEUE_SIZE_MAX, enabled: false, desc: 0, driver: 0, device: 0 });
        i = i + 1;
    }
    regs
}

/// The register block shared between the guest-facing MMIO path and the
/// worker: feature negotiation state, the selectors, and the status byte.
#[derive(Debug, Copy, Clone, PartialEq, Eq, Structural)]
pub struct Register {
    /// Features the device advertises; fixed at construction.
    pub device_feature: u64,
    /// Features the guest has acknowledged.
    pub driver_feature: u64,
    /// Which half of the device features a feature read returns.
    pub device_feature_sel: u8,
    /// Which half of the driver features a feature access touches.
    pub driver_feature_sel: u8,
    /// Which queue the per-queue registers address.
    pub queue_sel: u16,
    /// The device status byte.
    pub status: u8,
}

/// The register block at device construction: the advertised features with
/// everything else cleared.
pub open spec fn spec_initial_register(device_feature: u64) -> Register {
    Register {
        device_feature,
        driver_feature: 0,
        device_feature_sel: 0,
        driver_feature_sel: 0,
        queue_sel: 0,
        status: 0,
    }
}

impl Register {
    /// Builds the register block a device starts with.
    pub fn new(device_feature: u64) -> (r: Register)
        ensures
            r == spec_initial_register(device_feature),
    {
        Register {
            device_feature,
            driver_feature: 0,
            device_feature_sel: 0,
            driver_feature_sel: 0,
            queue_sel: 0,
            status: 0,
        }
    }
}

/// A control event posted by the register model to the worker over the wake
/// channel. `Start` carries the driver-feature snapshot taken at the moment
/// DRIVER_OK was raised; the interrupt sender to run with is attached by the
/// channel's surroundings.
#[derive(Debug, Copy, Clone, PartialEq, Eq, Structural)]
pub enum WakeEvent {
    /// The guest kicked a queue through the doorbell region.
    Notify { q_index: u16 },
    /// The device is being dropped; the worker must terminate.
    Shutdown,
    /// DRIVER_OK rose: activate the device with the given negotiated features.
    Start { feature: u64 },
    /// DRIVER_OK fell: reset the device and wait for a new start.
    Reset,
}

/// Poll-token bit marking a token of the transport itself rather than one a
/// device registered for its own descriptors.
pub const TOKEN_IS_QUEUE: u64 = 0x8000_0000_0000_0000;

/// Within the transport's token space, the sentinel for the wake channel's
/// wake primitive; every other value is a queue kick.
pub const TOKEN_WORKER_EVENT: u64 = 0x4000_0000_0000_0000;

/// The payload bits of a token: everything below the transport marker bit.
pub const TOKEN_DATA_MASK: u64 = 0x7fff_ffff_ffff_ffff;

/// What a poll token stands for.
#[derive(Debug, Copy, Clone, PartialEq, Eq, Structural)]
pub enum TokenKind {
    /// Drain the wake channel.
    WakeChannel,
    /// A kick file descriptor of the given queue became readable.
    QueueKick { q_index: u16 },
    /// A file descriptor the device registered during activation.
    Device,
}

/// How the worker reads a poll token: tokens without the transport marker
/// belong to the device; with the marker, the worker-event sentinel selects
/// the wake channel and anything else carries a queue index in its low bits.
pub open spec fn spec_classify_token(token: u64) -> TokenKind {
    if token & TOKEN_IS_QUEUE == 0 {
        TokenKind::Device
    } else if token & TOKEN_DATA_MASK == TOKEN_WORKER_EVENT {
        TokenKind::WakeChannel
    } else {
        TokenKind::QueueKick { q_index: (token & 0xffff) as u16 }
    }
}

/// Decodes a poll token into the source it stands for.
pub fn classify_token(token: u64) -> (r: TokenKind)
    ensures
        r == spec_classify_token(token),
{
    if token & TOKEN_IS_QUEUE == 0 {
        TokenKind::Device
    } else if token & TOKEN_DATA_MASK == TOKEN_WORKER_EVENT {
        TokenKind::WakeChannel
    } else {
        let data: u64 = token & 0xffff;
        assert(data <= 0xffff) by (bit_vector)
            requires
                data == token & 0xffff,
        ;
        TokenKind::QueueKick { q_index: data as u16 }
    }
}

/// The poll token registered for queue `q_index`'s kick file descriptor.
pub fn queue_token(q_index: u16) -> (t: u64)
    ensures
        t == TOKEN_IS_QUEUE | q_index as u64,
        spec_classify_token(t) == (TokenKind::QueueKick { q_index }),
{
    let t: u64 = TOKEN_IS_QUEUE | q_index as u64;
    proof {
        assert(t & TOKEN_IS_QUEUE != 0 && t & TOKEN_DATA_MASK != TOKEN_WORKER_EVENT && t & 0xffff
            == q_index) by (bit_vector)
            requires
                t == 0x8000_0000_0000_0000u64 | q_index as u64,
        ;
    }
    t
}

/// The poll token registered for the worker's wake primitive.
pub fn waker_token() -> (t: u64)
    ensures
        t == TOKEN_IS_QUEUE | TOKEN_WORKER_EVENT,
        spec_classify_token(t) == TokenKind::WakeChannel,
{
    let t: u64 = TOKEN_IS_QUEUE | TOKEN_WORKER_EVENT;
    proof {
        assert(t & TOKEN_IS_QUEUE != 0 && t & TOKEN_DATA_MASK == TOKEN_WORKER_EVENT)
            by (bit_vector)
            requires
                t == 0x8000_0000_0000_0000u64 | 0x4000_0000_0000_0000u64,
        ;
    }
    t
}

/// The worker's lifecycle states.
#[derive(Debug, Copy, Clone, PartialEq, Eq, Structural)]
pub enum WorkerPhase {
    /// Waiting for the guest to raise DRIVER_OK; no queue is active.
    WaitStart,
    /// The device is activated and serving queue and device events.
    Running,
    /// The worker thread has returned.
    Terminated,
}

/// The action the worker must carry out when it takes a step.
#[derive(Debug, Copy, Clone, PartialEq, Eq, Structural)]
pub enum WorkerStep {
    /// Nothing to do; the event was logged and dropped.
    Idle,
    /// Activate the device with the negotiated features, then install the
    /// active queue set.
    Activate { feature: u64 },
    /// Dispatch a kick of the given queue to the device.
    HandleQueue { q_index: u16 },
    /// Reset the device: deregister its descriptors and release the active
    /// queues.
    DeviceReset,
    /// Return from the worker thread.
    Terminate,
}

/// The worker's state machine: in WaitStart only Start makes progress and
/// Shutdown terminates; in Running kicks are dispatched, Reset returns to
/// WaitStart after a device reset, and Shutdown terminates; a terminated
/// worker takes no further step.
pub open spec fn spec_worker_step(phase: WorkerPhase, event: WakeEvent) -> (WorkerPhase, WorkerStep) {
    match phase {
        WorkerPhase::WaitStart => match event {
            WakeEvent::Start { feature } => (
                WorkerPhase::Running,
                WorkerStep::Activate { feature },
            ),
            WakeEvent::Shutdown => (WorkerPhase::Terminated, WorkerStep::Terminate),
            WakeEvent::Reset => (WorkerPhase::WaitStart, WorkerStep::Idle),
            WakeEvent::Notify { .. } => (WorkerPhase::WaitStart, WorkerStep::Idle),
        },
        WorkerPhase::Running => match event {
            WakeEvent::Notify { q_index } => (
                WorkerPhase::Running,
                WorkerStep::HandleQueue { q_index },
            ),
            WakeEvent::Start { .. } => (WorkerPhase::Running, WorkerStep::Idle),
            WakeEvent::Reset => (WorkerPhase::WaitStart, WorkerStep::DeviceReset),
            WakeEvent::Shutdown => (WorkerPhase::Terminated, WorkerStep::Terminate),
        },
        WorkerPhase::Terminated => (WorkerPhase::Terminated, WorkerStep::Idle),
    }
}

/// Takes one step of the worker's state machine for a control event.
pub fn worker_step(phase: WorkerPhase, event: WakeEvent) -> (r: (WorkerPhase, WorkerStep))
    ensures
        r == spec_worker_step(phase, event),
{
    match phase {
        WorkerPhase::WaitStart => match event {
            WakeEvent::Start { feature } => (
                WorkerPhase::Running,
                WorkerStep::Activate { feature },
            ),
            WakeEvent::Shutdown => (WorkerPhase::Terminated, WorkerStep::Terminate),
            WakeEvent::Reset => (WorkerPhase::WaitStart, WorkerStep::Idle),
            WakeEvent::Notify { .. } => (WorkerPhase::WaitStart, WorkerStep::Idle),
        },
        WorkerPhase::Running => match event {
            WakeEvent::Notify { q_index } => (
                WorkerPhase::Running,
                WorkerStep::HandleQueue { q_index },
            ),
            WakeEvent::Start { .. } => (WorkerPhase::Running, WorkerStep::Idle),
            WakeEvent::Reset => (WorkerPhase::WaitStart, WorkerStep::DeviceReset),
            WakeEvent::Shutdown => (WorkerPhase::Terminated, WorkerStep::Terminate),
        },
        WorkerPhase::Terminated => (WorkerPhase::Terminated, WorkerStep::Idle),
    }
}

/// A Shutdown event terminates the worker from every phase, and from any
/// live phase the step it orders is exactly Terminate: processing the event
/// the destructor posts ends the worker in one step.
pub proof fn lemma_shutdown_terminates(phase: WorkerPhase)
    ensures
        spec_worker_step(phase, WakeEvent::Shutdown).0 == WorkerPhase::Terminated,
        phase != WorkerPhase::Terminated ==> spec_worker_step(phase, WakeEvent::Shutdown).1
            == WorkerStep::Terminate,
{
}

/// A Reset event observed while running orders exactly one device reset and
/// re-enters the pre-start wait, and a Reset observed while already waiting
/// orders none: each DRIVER_OK falling edge resets the device exactly once.
pub proof fn lemma_reset_cycle()
    ensures
        spec_worker_step(WorkerPhase::Running, WakeEvent::Reset) == (
            WorkerPhase::WaitStart,
            WorkerStep::DeviceReset,
        ),
        spec_worker_step(WorkerPhase::WaitStart, WakeEvent::Reset) == (
            WorkerPhase::WaitStart,
            WorkerStep::Idle,
        ),
{
}

/// Before the device is started no kick reaches it: a Notify event in the
/// pre-start wait is dropped and the worker keeps waiting.
pub proof fn lemma_notify_before_start_dropped(q_index: u16)
    ensures
        spec_worker_step(WorkerPhase::WaitStart, WakeEvent::Notify { q_index }) == (
            WorkerPhase::WaitStart,
            WorkerStep::Idle,
        ),
{
}

/// How a concrete device's configuration parameters build the device.
pub trait DevParam {
    /// The device the parameters build.
    type Device;

    /// Builds the device under the given name.
    fn build(self, name: Arc<String>) -> Result<Self::Device, VirtioError>;
}

} // verus!
