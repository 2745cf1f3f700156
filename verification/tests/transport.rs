//! End-to-end scenarios against the register model: bring-up, feature
//! negotiation, kicks, reset cycles, and probing unknown registers.

use virtio_transport::dev::WakeEvent;
use virtio_transport::msix::VIRTIO_MSI_NO_VECTOR;
use virtio_transport::pci::{
    VirtioPciRegisterMmio, OFFSET_CONFIG_GENERATION, OFFSET_CONFIG_MSIX_VECTOR,
    OFFSET_DEVICE_FEATURE, OFFSET_DEVICE_FEATURE_SELECT, OFFSET_DEVICE_STATUS,
    OFFSET_DRIVER_FEATURE, OFFSET_DRIVER_FEATURE_SELECT, OFFSET_NUM_QUEUES, OFFSET_QUEUE_DESC_HI,
    OFFSET_QUEUE_DESC_LO, OFFSET_QUEUE_DEVICE_LO, OFFSET_QUEUE_DRIVER_HI, OFFSET_QUEUE_DRIVER_LO,
    OFFSET_QUEUE_ENABLE, OFFSET_QUEUE_MSIX_VECTOR, OFFSET_QUEUE_NOTIFY, OFFSET_QUEUE_NOTIFY_OFF,
    OFFSET_QUEUE_SELECT, OFFSET_QUEUE_SIZE,
};

#[test]
fn bring_up_posts_one_start_with_feature_snapshot() {
    let mut mmio = VirtioPciRegisterMmio::new(0, 2);
    assert_eq!(mmio.write(OFFSET_DEVICE_STATUS, 1, 1), None);
    assert_eq!(mmio.write(OFFSET_DEVICE_STATUS, 1, 3), None);
    assert_eq!(mmio.write(OFFSET_DEVICE_STATUS, 1, 11), None);
    let ev = mmio.write(OFFSET_DEVICE_STATUS, 1, 15);
    assert_eq!(ev, Some(WakeEvent::Start { feature: 0 }));
    assert_eq!(mmio.read(OFFSET_DEVICE_STATUS, 1), 15);
}

#[test]
fn feature_negotiation_windows() {
    let mut mmio = VirtioPciRegisterMmio::new(0x0000_0001_0000_0005, 2);
    assert_eq!(mmio.read(OFFSET_DEVICE_FEATURE, 4), 0x0000_0005);
    assert_eq!(mmio.write(OFFSET_DEVICE_FEATURE_SELECT, 4, 1), None);
    assert_eq!(mmio.read(OFFSET_DEVICE_FEATURE_SELECT, 4), 1);
    assert_eq!(mmio.read(OFFSET_DEVICE_FEATURE, 4), 0x0000_0001);
    assert_eq!(mmio.write(OFFSET_DEVICE_FEATURE_SELECT, 4, 2), None);
    assert_eq!(mmio.read(OFFSET_DEVICE_FEATURE, 4), 0);

    assert_eq!(mmio.write(OFFSET_DRIVER_FEATURE_SELECT, 4, 0), None);
    assert_eq!(mmio.write(OFFSET_DRIVER_FEATURE, 4, 0x5), None);
    assert_eq!(mmio.write(OFFSET_DRIVER_FEATURE_SELECT, 4, 1), None);
    assert_eq!(mmio.write(OFFSET_DRIVER_FEATURE, 4, 0x1), None);
    assert_eq!(mmio.reg.driver_feature, 0x0000_0001_0000_0005);

    let ev = mmio.write(OFFSET_DEVICE_STATUS, 1, 15);
    assert_eq!(ev, Some(WakeEvent::Start { feature: 0x0000_0001_0000_0005 }));
    let activated = virtio_transport::virtio::activation_feature(0x0000_0001_0000_0005);
    assert_eq!(activated, Ok(0x0000_0001_0000_0005));
}

#[test]
fn driver_feature_reads_follow_selector() {
    let mut mmio = VirtioPciRegisterMmio::new(0, 1);
    mmio.write(OFFSET_DRIVER_FEATURE_SELECT, 4, 0);
    mmio.write(OFFSET_DRIVER_FEATURE, 4, 0xdead_beef);
    mmio.write(OFFSET_DRIVER_FEATURE_SELECT, 4, 1);
    mmio.write(OFFSET_DRIVER_FEATURE, 4, 0x1234_5678);
    assert_eq!(mmio.read(OFFSET_DRIVER_FEATURE, 4), 0x1234_5678);
    mmio.write(OFFSET_DRIVER_FEATURE_SELECT, 4, 0);
    assert_eq!(mmio.read(OFFSET_DRIVER_FEATURE, 4), 0xdead_beef);
    assert_eq!(mmio.reg.driver_feature, 0x1234_5678_dead_beef);
    mmio.write(OFFSET_DRIVER_FEATURE_SELECT, 4, 7);
    assert_eq!(mmio.read(OFFSET_DRIVER_FEATURE, 4), 0);
}

#[test]
fn queue_registers_follow_selector() {
    let mut mmio = VirtioPciRegisterMmio::new(0, 2);
    assert_eq!(mmio.read(OFFSET_NUM_QUEUES, 2), 2);
    assert_eq!(mmio.read(OFFSET_QUEUE_SIZE, 2), 256);

    assert_eq!(mmio.write(OFFSET_QUEUE_SELECT, 2, 1), None);
    assert_eq!(mmio.read(OFFSET_QUEUE_SELECT, 2), 1);
    assert_eq!(mmio.read(OFFSET_QUEUE_NOTIFY_OFF, 2), 1);

    mmio.write(OFFSET_QUEUE_SIZE, 2, 128);
    mmio.write(OFFSET_QUEUE_DESC_LO, 4, 0xdead_beef);
    mmio.write(OFFSET_QUEUE_DESC_HI, 4, 0x1234_5678);
    mmio.write(OFFSET_QUEUE_DRIVER_LO, 4, 0xaabb_ccdd);
    mmio.write(OFFSET_QUEUE_DRIVER_HI, 4, 0x1122_3344);
    assert_eq!(mmio.read(OFFSET_QUEUE_SIZE, 2), 128);
    assert_eq!(mmio.read(OFFSET_QUEUE_DESC_LO, 4), 0xdead_beef);
    assert_eq!(mmio.read(OFFSET_QUEUE_DESC_HI, 4), 0x1234_5678);
    // Reads of the low halves return the low halves, as the virtio
    // specification requires.
    assert_eq!(mmio.read(OFFSET_QUEUE_DRIVER_LO, 4), 0xaabb_ccdd);
    assert_eq!(mmio.read(OFFSET_QUEUE_DRIVER_HI, 4), 0x1122_3344);
    assert_eq!(mmio.queues[1].desc, 0x1234_5678_dead_beef);
    assert_eq!(mmio.queues[1].driver, 0x1122_3344_aabb_ccdd);

    // Queue 0 is untouched.
    mmio.write(OFFSET_QUEUE_SELECT, 2, 0);
    assert_eq!(mmio.read(OFFSET_QUEUE_SIZE, 2), 256);
    assert_eq!(mmio.read(OFFSET_QUEUE_DESC_LO, 4), 0);

    // An out-of-range selector reads zero and the no-vector value.
    mmio.write(OFFSET_QUEUE_SELECT, 2, 9);
    assert_eq!(mmio.read(OFFSET_QUEUE_SIZE, 2), 0);
    assert_eq!(mmio.read(OFFSET_QUEUE_ENABLE, 2), 0);
    assert_eq!(
        mmio.read(OFFSET_QUEUE_MSIX_VECTOR, 2),
        VIRTIO_MSI_NO_VECTOR as u64
    );
    mmio.write(OFFSET_QUEUE_SIZE, 2, 32);
    mmio.write(OFFSET_QUEUE_SELECT, 2, 0);
    assert_eq!(mmio.read(OFFSET_QUEUE_SIZE, 2), 256);
}

#[test]
fn notify_doorbell_posts_kick() {
    let mut mmio = VirtioPciRegisterMmio::new(0, 2);
    let ev = mmio.write(OFFSET_QUEUE_NOTIFY + 4, 4, 0);
    assert_eq!(ev, Some(WakeEvent::Notify { q_index: 1 }));
    let ev0 = mmio.write(OFFSET_QUEUE_NOTIFY, 2, 7);
    assert_eq!(ev0, Some(WakeEvent::Notify { q_index: 0 }));
    // Beyond the last doorbell the write is ignored.
    assert_eq!(mmio.write(OFFSET_QUEUE_NOTIFY + 8, 4, 0), None);
}

#[test]
fn reset_cycle_clears_vectors_and_enables() {
    let mut mmio = VirtioPciRegisterMmio::new(0, 2);
    mmio.write(OFFSET_CONFIG_MSIX_VECTOR, 2, 0);
    for q in 0..2u64 {
        mmio.write(OFFSET_QUEUE_SELECT, 2, q);
        mmio.write(OFFSET_QUEUE_MSIX_VECTOR, 2, q + 1);
        mmio.write(OFFSET_QUEUE_ENABLE, 2, 1);
    }
    assert_eq!(mmio.read(OFFSET_CONFIG_MSIX_VECTOR, 2), 0);
    assert_eq!(mmio.read(OFFSET_QUEUE_ENABLE, 2), 1);
    assert_eq!(mmio.read(OFFSET_QUEUE_MSIX_VECTOR, 2), 2);

    let started = mmio.write(OFFSET_DEVICE_STATUS, 1, 15);
    assert_eq!(started, Some(WakeEvent::Start { feature: 0 }));

    // Clearing the status while DRIVER_OK is set posts exactly one Reset and
    // clears every vector slot and enable flag before it is observed.
    let ev = mmio.write(OFFSET_DEVICE_STATUS, 1, 0);
    assert_eq!(ev, Some(WakeEvent::Reset));
    assert_eq!(mmio.read(OFFSET_DEVICE_STATUS, 1), 0);
    assert_eq!(
        mmio.read(OFFSET_CONFIG_MSIX_VECTOR, 2),
        VIRTIO_MSI_NO_VECTOR as u64
    );
    for q in 0..2u64 {
        mmio.write(OFFSET_QUEUE_SELECT, 2, q);
        assert_eq!(mmio.read(OFFSET_QUEUE_ENABLE, 2), 0);
        assert_eq!(
            mmio.read(OFFSET_QUEUE_MSIX_VECTOR, 2),
            VIRTIO_MSI_NO_VECTOR as u64
        );
    }
    // Sizes and addresses survive the reset.
    mmio.write(OFFSET_QUEUE_SELECT, 2, 0);
    assert_eq!(mmio.read(OFFSET_QUEUE_SIZE, 2), 256);
}

#[test]
fn status_write_without_edge_posts_nothing() {
    let mut mmio = VirtioPciRegisterMmio::new(0, 1);
    assert_eq!(mmio.write(OFFSET_DEVICE_STATUS, 1, 0), None);
    assert_eq!(mmio.write(OFFSET_DEVICE_STATUS, 1, 11), None);
    let ev = mmio.write(OFFSET_DEVICE_STATUS, 1, 15);
    assert_eq!(ev, Some(WakeEvent::Start { feature: 0 }));
    // Writing the same DRIVER_OK status again moves nothing.
    assert_eq!(mmio.write(OFFSET_DEVICE_STATUS, 1, 15), None);
}

#[test]
fn status_keeps_only_defined_bits() {
    let mut mmio = VirtioPciRegisterMmio::new(0, 1);
    let ev = mmio.write(OFFSET_DEVICE_STATUS, 1, 0xff);
    // 0xff truncates to the defined bits 0xcf, which raises DRIVER_OK.
    assert_eq!(ev, Some(WakeEvent::Start { feature: 0 }));
    assert_eq!(mmio.read(OFFSET_DEVICE_STATUS, 1), 0xcf);
    let ev2 = mmio.write(OFFSET_DEVICE_STATUS, 1, 0x30);
    // 0x30 holds no defined bit: the status falls to zero, a falling edge.
    assert_eq!(ev2, Some(WakeEvent::Reset));
    assert_eq!(mmio.read(OFFSET_DEVICE_STATUS, 1), 0);
}

#[test]
fn unknown_offsets_read_zero_and_ignore_writes() {
    let mut mmio = VirtioPciRegisterMmio::new(0xabcd, 2);
    let before = mmio.clone();
    assert_eq!(mmio.write(2, 4, 0xdead_beef), None);
    assert_eq!(mmio.write(OFFSET_CONFIG_GENERATION, 1, 7), None);
    assert_eq!(mmio.write(56, 4, 1), None);
    assert_eq!(mmio.write(OFFSET_QUEUE_NOTIFY + 1, 4, 0), None);
    assert_eq!(mmio.write(4096, 8, 0xffff_ffff), None);
    assert_eq!(mmio, before);
    assert_eq!(mmio.read(2, 4), 0);
    assert_eq!(mmio.read(OFFSET_CONFIG_GENERATION, 1), 0);
    assert_eq!(mmio.read(56, 4), 0);
    assert_eq!(mmio.read(4096, 8), 0);
}

#[test]
fn region_size_counts_doorbells() {
    let mmio = VirtioPciRegisterMmio::new(0, 2);
    assert_eq!(mmio.size(), 68);
    let one = VirtioPciRegisterMmio::new(0, 1);
    assert_eq!(one.size(), 64);
}

#[test]
fn bus_reset_clears_status_and_transport() {
    let mut mmio = VirtioPciRegisterMmio::new(0, 2);
    mmio.write(OFFSET_DEVICE_STATUS, 1, 15);
    mmio.write(OFFSET_QUEUE_SELECT, 2, 0);
    mmio.write(OFFSET_QUEUE_ENABLE, 2, 1);
    mmio.write(OFFSET_QUEUE_MSIX_VECTOR, 2, 1);
    let ev = mmio.bus_reset();
    assert_eq!(ev, WakeEvent::Reset);
    assert_eq!(mmio.read(OFFSET_DEVICE_STATUS, 1), 0);
    assert_eq!(mmio.read(OFFSET_QUEUE_ENABLE, 2), 0);
    assert_eq!(
        mmio.read(OFFSET_QUEUE_MSIX_VECTOR, 2),
        VIRTIO_MSI_NO_VECTOR as u64
    );
}
