//! The worker state machine, the poll-token encoding, the feature decisions,
//! and the MSI-X delivery decisions.

use virtio_transport::dev::{
    classify_token, initial_queues, queue_token, waker_token, worker_step, Register, TokenKind,
    WakeEvent, WorkerPhase, WorkerStep, QUEUE_SIZE_MAX, TOKEN_IS_QUEUE, TOKEN_WORKER_EVENT,
};
use virtio_transport::msix::{MsiMessage, MsixTableEntry, PciIrqSender, VIRTIO_MSI_NO_VECTOR};
use virtio_transport::virtio::{
    activation_feature, driver_ok, offered_feature, VirtioError, FEATURE_ACCESS_PLATFORM,
    FEATURE_RING_PACKED, STATUS_DRIVER_OK,
};

#[test]
fn worker_waits_until_start() {
    assert_eq!(
        worker_step(WorkerPhase::WaitStart, WakeEvent::Start { feature: 5 }),
        (WorkerPhase::Running, WorkerStep::Activate { feature: 5 })
    );
    assert_eq!(
        worker_step(WorkerPhase::WaitStart, WakeEvent::Notify { q_index: 0 }),
        (WorkerPhase::WaitStart, WorkerStep::Idle)
    );
    assert_eq!(
        worker_step(WorkerPhase::WaitStart, WakeEvent::Reset),
        (WorkerPhase::WaitStart, WorkerStep::Idle)
    );
}

#[test]
fn worker_dispatches_kicks_while_running() {
    assert_eq!(
        worker_step(WorkerPhase::Running, WakeEvent::Notify { q_index: 1 }),
        (WorkerPhase::Running, WorkerStep::HandleQueue { q_index: 1 })
    );
    assert_eq!(
        worker_step(WorkerPhase::Running, WakeEvent::Start { feature: 1 }),
        (WorkerPhase::Running, WorkerStep::Idle)
    );
}

#[test]
fn worker_resets_exactly_once_per_reset_event() {
    assert_eq!(
        worker_step(WorkerPhase::Running, WakeEvent::Reset),
        (WorkerPhase::WaitStart, WorkerStep::DeviceReset)
    );
    assert_eq!(
        worker_step(WorkerPhase::WaitStart, WakeEvent::Reset),
        (WorkerPhase::WaitStart, WorkerStep::Idle)
    );
}

#[test]
fn shutdown_terminates_from_every_phase() {
    assert_eq!(
        worker_step(WorkerPhase::WaitStart, WakeEvent::Shutdown),
        (WorkerPhase::Terminated, WorkerStep::Terminate)
    );
    assert_eq!(
        worker_step(WorkerPhase::Running, WakeEvent::Shutdown),
        (WorkerPhase::Terminated, WorkerStep::Terminate)
    );
    assert_eq!(
        worker_step(WorkerPhase::Terminated, WakeEvent::Shutdown),
        (WorkerPhase::Terminated, WorkerStep::Idle)
    );
}

#[test]
fn tokens_round_trip() {
    assert_eq!(
        classify_token(queue_token(1)),
        TokenKind::QueueKick { q_index: 1 }
    );
    assert_eq!(
        classify_token(queue_token(0xfffe)),
        TokenKind::QueueKick { q_index: 0xfffe }
    );
    assert_eq!(classify_token(waker_token()), TokenKind::WakeChannel);
    assert_eq!(waker_token(), TOKEN_IS_QUEUE | TOKEN_WORKER_EVENT);
    assert_eq!(classify_token(42), TokenKind::Device);
}

#[test]
fn offered_feature_follows_memory_model() {
    assert_eq!(offered_feature(0x5, true), 0x5 | FEATURE_ACCESS_PLATFORM);
    assert_eq!(
        offered_feature(0x5 | FEATURE_ACCESS_PLATFORM, false),
        0x5
    );
}

#[test]
fn activation_refuses_packed_ring() {
    assert_eq!(
        activation_feature(FEATURE_RING_PACKED),
        Err(VirtioError::RingPackedUnsupported)
    );
    assert_eq!(
        activation_feature(0x5 | FEATURE_ACCESS_PLATFORM),
        Ok(0x5)
    );
    assert_eq!(activation_feature(0), Ok(0));
}

#[test]
fn status_bit_queries() {
    assert!(driver_ok(STATUS_DRIVER_OK));
    assert!(driver_ok(0xcf));
    assert!(!driver_ok(0xb));
    assert!(!driver_ok(0));
}

#[test]
fn initial_state_of_queues_and_registers() {
    let queues = initial_queues(3);
    assert_eq!(queues.len(), 3);
    for q in &queues {
        assert_eq!(q.size, QUEUE_SIZE_MAX);
        assert!(!q.enabled);
        assert_eq!(q.desc, 0);
        assert_eq!(q.driver, 0);
        assert_eq!(q.device, 0);
    }
    let reg = Register::new(0x1234);
    assert_eq!(reg.device_feature, 0x1234);
    assert_eq!(reg.driver_feature, 0);
    assert_eq!(reg.status, 0);
    assert_eq!(reg.queue_sel, 0);
}

struct FixedParam {
    feature: u64,
}

impl virtio_transport::dev::DevParam for FixedParam {
    type Device = u64;

    fn build(self, _name: std::sync::Arc<String>) -> Result<u64, VirtioError> {
        Ok(self.feature)
    }
}

#[test]
fn dev_param_builds_device() {
    let param = FixedParam { feature: 0x5 };
    let built = virtio_transport::dev::DevParam::build(
        param,
        std::sync::Arc::new(String::from("blk0")),
    );
    assert_eq!(built, Ok(0x5));
}

fn programmed_sender() -> PciIrqSender {
    let mut sender = PciIrqSender::new(2, 4);
    sender.msix_entries[3] = MsixTableEntry {
        addr_lo: 0x1000,
        addr_hi: 0,
        data: 0x42,
        control: 0,
    };
    sender.msix_vector.queues[1] = 3;
    sender
}

#[test]
fn msix_delivery_uses_programmed_entry() {
    let sender = programmed_sender();
    assert_eq!(
        sender.queue_irq(1),
        Some(MsiMessage { addr: 0x1000, data: 0x42 })
    );
    // The other queue and the config interrupt have no vector yet.
    assert_eq!(sender.queue_irq(0), None);
    assert_eq!(sender.config_irq(), None);
    // An unknown queue index is dropped.
    assert_eq!(sender.queue_irq(9), None);
}

#[test]
fn masked_vector_produces_no_message() {
    let mut sender = programmed_sender();
    sender.msix_entries[3].control = 1;
    assert_eq!(sender.queue_irq(1), None);
}

#[test]
fn msix_addr_joins_both_halves() {
    let mut sender = PciIrqSender::new(1, 2);
    sender.msix_entries[0] = MsixTableEntry {
        addr_lo: 0xfee0_1004,
        addr_hi: 0x1,
        data: 0x99,
        control: 0,
    };
    sender.msix_vector.config = 0;
    assert_eq!(
        sender.config_irq(),
        Some(MsiMessage { addr: 0x1_fee0_1004, data: 0x99 })
    );
    // A vector beyond the table is dropped.
    sender.msix_vector.config = 7;
    assert_eq!(sender.config_irq(), None);
    assert_eq!(sender.msix_vector.queues[0], VIRTIO_MSI_NO_VECTOR);
}
