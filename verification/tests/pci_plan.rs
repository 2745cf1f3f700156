//! The PCI layout plan, the capability records, the class codes, and the
//! AArch64 system-register encoder.

use virtio_transport::pci_cap::{
    build_transport_plan, cfg_type_value, get_class, next_power_of_two_u64, Bar2Plan, MsixCapInfo,
    PciCapHdr, VirtioPciCap, VirtioPciCap64, VirtioPciCfg, VirtioPciNotifyCap, BAR0_MASK,
    BAR0_SIZE, MSIX_PBA_OFFSET, PCI_CAP_ID_VENDOR, REGISTER_OFFSET, VIRTIO_DEVICE_ID_BASE,
    VIRTIO_VENDOR_ID,
};
use virtio_transport::pci::{
    VirtioCommonCfg, VirtioPciRegister, COMMON_CFG_SIZE, OFFSET_ISR_STATUS, OFFSET_QUEUE_NOTIFY,
};
use virtio_transport::sysreg::{encode, MPIDR_EL1};
use virtio_transport::virtio::{device_id_num, DeviceId};

#[test]
fn class_codes_per_device_kind() {
    assert_eq!(get_class(DeviceId::Net), (0x02, 0x00));
    assert_eq!(get_class(DeviceId::Block), (0x01, 0x00));
    assert_eq!(get_class(DeviceId::FileSystem), (0x01, 0x80));
    assert_eq!(get_class(DeviceId::Socket), (0x02, 0x80));
    assert_eq!(get_class(DeviceId::Entropy), (0xff, 0x00));
}

#[test]
fn device_numbers_per_device_kind() {
    assert_eq!(device_id_num(DeviceId::Net), 1);
    assert_eq!(device_id_num(DeviceId::Block), 2);
    assert_eq!(device_id_num(DeviceId::Entropy), 4);
    assert_eq!(device_id_num(DeviceId::Socket), 19);
    assert_eq!(device_id_num(DeviceId::FileSystem), 26);
}

#[test]
fn cfg_type_values() {
    assert_eq!(cfg_type_value(VirtioPciCfg::Common), 1);
    assert_eq!(cfg_type_value(VirtioPciCfg::Notify), 2);
    assert_eq!(cfg_type_value(VirtioPciCfg::Isr), 3);
    assert_eq!(cfg_type_value(VirtioPciCfg::Device), 4);
    assert_eq!(cfg_type_value(VirtioPciCfg::SharedMemory), 5);
    assert_eq!(cfg_type_value(VirtioPciCfg::Vendor), 9);
}

#[test]
fn next_power_of_two_rounds_up() {
    assert_eq!(next_power_of_two_u64(1), 1);
    assert_eq!(next_power_of_two_u64(2), 2);
    assert_eq!(next_power_of_two_u64(3), 4);
    assert_eq!(next_power_of_two_u64(16384), 16384);
    assert_eq!(next_power_of_two_u64(0x1_0000_1000), 0x2_0000_0000);
    assert_eq!(
        next_power_of_two_u64(0x4000_0000_0000_0000),
        0x4000_0000_0000_0000
    );
}

#[test]
fn set_next_links_capabilities() {
    let mut cap = VirtioPciCap {
        header: PciCapHdr { id: PCI_CAP_ID_VENDOR, next: 0 },
        cap_len: 16,
        cfg_type: 1,
        bar: 0,
        id: 0,
        offset: 0,
        length: 0,
    };
    cap.set_next(0x40);
    assert_eq!(cap.header.next, 0x40);
    assert_eq!(cap.cfg_type, 1);

    let mut cap64 = VirtioPciCap64 { cap, offset_hi: 7, length_hi: 9 };
    cap64.set_next(0x50);
    assert_eq!(cap64.cap.header.next, 0x50);
    assert_eq!(cap64.offset_hi, 7);

    let mut notify = VirtioPciNotifyCap { cap, multiplier: 4 };
    notify.set_next(0x60);
    assert_eq!(notify.cap.header.next, 0x60);
    assert_eq!(notify.multiplier, 4);
}

#[test]
fn plan_for_block_device_with_shared_memory() {
    let shared: Vec<u64> = vec![0x1_0000_0000, 0x1000];
    let plan = build_transport_plan(DeviceId::Block, 2, 64, &shared, true);

    assert_eq!(plan.vendor, VIRTIO_VENDOR_ID);
    assert_eq!(plan.device, VIRTIO_DEVICE_ID_BASE + 2);
    assert_eq!(plan.subsystem, 0x1042);
    assert_eq!(plan.revision, 1);
    assert_eq!(plan.class, 0x01);
    assert_eq!(plan.subclass, 0x00);

    assert_eq!(plan.table_entries, 3);
    assert_eq!(plan.msix_table_size, 48);
    assert_eq!(
        plan.msix_cap,
        MsixCapInfo { msg_ctrl: 2, table_offset: 0, pba_offset: MSIX_PBA_OFFSET }
    );

    assert_eq!(plan.cap_common.cfg_type, 1);
    assert_eq!(plan.cap_common.bar, 0);
    assert_eq!(plan.cap_common.offset, REGISTER_OFFSET);
    assert_eq!(plan.cap_common.length, 56);

    assert_eq!(plan.cap_isr.cfg_type, 3);
    assert_eq!(plan.cap_isr.offset, 12344);
    assert_eq!(plan.cap_isr.length, 4);

    assert_eq!(plan.cap_notify.cap.cfg_type, 2);
    assert_eq!(plan.cap_notify.cap.offset, 12348);
    assert_eq!(plan.cap_notify.cap.length, 8);
    assert_eq!(plan.cap_notify.multiplier, 4);

    assert_eq!(plan.device_config_offset, 12356);
    let dev_cap = plan.cap_device.unwrap();
    assert_eq!(dev_cap.cfg_type, 4);
    assert_eq!(dev_cap.offset, 12356);
    assert_eq!(dev_cap.length, 64);

    assert_eq!(plan.shared_mem_caps.len(), 2);
    let s0 = &plan.shared_mem_caps[0];
    assert_eq!(s0.cap.cfg_type, 5);
    assert_eq!(s0.cap.bar, 2);
    assert_eq!(s0.cap.id, 0);
    assert_eq!(s0.cap.offset, 0);
    assert_eq!(s0.offset_hi, 0);
    assert_eq!(s0.cap.length, 0);
    assert_eq!(s0.length_hi, 1);
    let s1 = &plan.shared_mem_caps[1];
    assert_eq!(s1.cap.id, 1);
    assert_eq!(s1.cap.offset, 0);
    assert_eq!(s1.offset_hi, 1);
    assert_eq!(s1.cap.length, 0x1000);
    assert_eq!(s1.length_hi, 0);

    assert_eq!(plan.bar0_size, BAR0_SIZE);
    assert_eq!(plan.bar0_mask, BAR0_MASK);
    assert_eq!(
        plan.bar2,
        Some(Bar2Plan {
            size: 0x1_0000_1000,
            mask: 0xffff_fffe_0000_0000,
            prefetchable: true
        })
    );
}

#[test]
fn plan_without_device_config_or_shared_memory() {
    let shared: Vec<u64> = Vec::new();
    let plan = build_transport_plan(DeviceId::Net, 3, 0, &shared, false);
    assert_eq!(plan.device, 0x1041);
    assert_eq!(plan.class, 0x02);
    assert_eq!(plan.cap_device, None);
    assert_eq!(plan.bar2, None);
    assert_eq!(plan.shared_mem_caps.len(), 0);
    assert_eq!(plan.cap_notify.cap.length, 12);
    assert_eq!(plan.device_config_offset, 12360);
}

#[test]
fn common_cfg_mirrors_wire_layout() {
    let common = VirtioCommonCfg {
        device_feature_select: 0,
        device_feature: 5,
        driver_feature_select: 0,
        driver_feature: 5,
        config_msix_vector: 0xffff,
        num_queues: 2,
        device_status: 0,
        config_generation: 0,
        queue_select: 0,
        queue_size: 256,
        queue_msix_vector: 0xffff,
        queue_enable: 0,
        queue_notify_off: 0,
        queue_desc_lo: 0,
        queue_desc_hi: 0,
        queue_driver_lo: 0,
        queue_driver_hi: 0,
        queue_device_lo: 0,
        queue_device_hi: 0,
    };
    let region = VirtioPciRegister { common, isr_status: 0 };
    assert_eq!(region.common.num_queues, 2);
    assert_eq!(COMMON_CFG_SIZE, 56);
    assert_eq!(OFFSET_ISR_STATUS, COMMON_CFG_SIZE);
    assert_eq!(OFFSET_QUEUE_NOTIFY, OFFSET_ISR_STATUS + 4);
}

#[test]
fn sysreg_encoding() {
    assert_eq!(encode(3, 0, 0, 0, 5), 0xc005);
    assert_eq!(encode(3, 0, 0, 0, 5), MPIDR_EL1);
    assert_eq!(encode(2, 1, 3, 4, 5), 0x89a5);
    assert_eq!(encode(0, 0, 0, 0, 0), 0);
}
