//! Transport-wide definitions: device classes, the virtio transport feature
//! bits, the device status byte, and the feature decisions taken at device
//! construction and at activation.

use vstd::prelude::*;

verus! {

/// The virtio device kinds this transport knows a PCI class code for.
#[derive(Debug, Copy, Clone, PartialEq, Eq, Structural)]
pub enum DeviceId {
    Net,
    Block,
    Entropy,
    Socket,
    FileSystem,
}

/// The virtio device number of a device kind, as the virtio specification
/// assigns them; the exposed PCI device id is a fixed base plus this number.
pub open spec fn spec_device_id_num(id: DeviceId) -> u16 {
    match id {
        DeviceId::Net => 1,
        DeviceId::Block => 2,
        DeviceId::Entropy => 4,
        DeviceId::Socket => 19,
        DeviceId::FileSystem => 26,
    }
}

/// Returns the virtio device number of a device kind.
pub fn device_id_num(id: DeviceId) -> (r: u16)
    ensures
        r == spec_device_id_num(id),
{
    match id {
        DeviceId::Net => 1,
        DeviceId::Block => 2,
        DeviceId::Entropy => 4,
        DeviceId::Socket => 19,
        DeviceId::FileSystem => 26,
    }
}

/// Transport feature bit: guest addresses must be translated (restricted or
/// IOMMU-isolated guest memory).
pub const FEATURE_ACCESS_PLATFORM: u64 = 0x2_0000_0000;

/// Transport feature bit: the packed virtqueue ring layout.
pub const FEATURE_RING_PACKED: u64 = 0x4_0000_0000;

/// Device status bit: the guest has noticed the device.
pub const STATUS_ACKNOWLEDGE: u8 = 1;

/// Device status bit: the guest knows how to drive the device.
pub const STATUS_DRIVER: u8 = 2;

/// Device status bit: the driver is set up and ready to drive the device.
pub const STATUS_DRIVER_OK: u8 = 4;

/// Device status bit: feature negotiation is complete.
pub const STATUS_FEATURES_OK: u8 = 8;

/// Device status bit: the device has experienced an error it cannot recover
/// from without a reset.
pub const STATUS_DEVICE_NEEDS_RESET: u8 = 64;

/// Device status bit: the guest has given up on the device.
pub const STATUS_FAILED: u8 = 128;

/// The mask of the defined device status bits; a status write keeps only
/// these.
pub const STATUS_MASK: u8 = 0xcf;

/// Whether a status byte has DRIVER_OK set.
pub open spec fn spec_driver_ok(status: u8) -> bool {
    status & STATUS_DRIVER_OK != 0
}

/// Returns whether a status byte has DRIVER_OK set.
pub fn driver_ok(status: u8) -> (r: bool)
    ensures
        r == spec_driver_ok(status),
{
    status & STATUS_DRIVER_OK != 0
}

/// The feature set a device advertises to the guest: the device's own bits
/// with ACCESS_PLATFORM forced on when guest memory is restricted and forced
/// off when it is not.
pub open spec fn spec_offered_feature(device_feature: u64, restricted_memory: bool) -> u64 {
    if restricted_memory {
        device_feature | FEATURE_ACCESS_PLATFORM
    } else {
        device_feature & !FEATURE_ACCESS_PLATFORM
    }
}

/// Adjusts a device's advertised feature bits to the memory model of the
/// machine: restricted guest memory advertises ACCESS_PLATFORM, open guest
/// memory never does.
pub fn offered_feature(device_feature: u64, restricted_memory: bool) -> (r: u64)
    ensures
        r == spec_offered_feature(device_feature, restricted_memory),
{
    if restricted_memory {
        device_feature | FEATURE_ACCESS_PLATFORM
    } else {
        device_feature & !FEATURE_ACCESS_PLATFORM
    }
}

/// Errors of the transport core.
#[derive(Debug, Copy, Clone, PartialEq, Eq, Structural)]
pub enum VirtioError {
    /// The guest negotiated the packed virtqueue ring, which this transport
    /// reserves but does not implement.
    RingPackedUnsupported,
}

/// The feature set handed to a device at activation: the negotiated bits with
/// the transport-internal ACCESS_PLATFORM bit cleared. Activation is refused
/// when the negotiated set selects the packed ring.
pub open spec fn spec_activation_feature(feature: u64) -> Result<u64, VirtioError> {
    if feature & FEATURE_RING_PACKED != 0 {
        Err(VirtioError::RingPackedUnsupported)
    } else {
        Ok(feature & !FEATURE_ACCESS_PLATFORM)
    }
}

/// Decides activation from the negotiated feature set: refuses the packed
/// ring, otherwise hands the device the negotiated bits without
/// ACCESS_PLATFORM.
pub fn activation_feature(feature: u64) -> (r: Result<u64, VirtioError>)
    ensures
        r == spec_activation_feature(feature),
        feature & FEATURE_RING_PACKED == 0 <==> r is Ok,
{
    if feature & FEATURE_RING_PACKED != 0 {
        Err(VirtioError::RingPackedUnsupported)
    } else {
        Ok(feature & !FEATURE_ACCESS_PLATFORM)
    }
}

} // verus!
