use vstd::prelude::*;

verus! {

/// Mount point of the sysfs pseudo-filesystem.
pub const SYSFS_MOUNT_PATH: &'static str = "/sys";

/// Directory under sysfs that lists the USB devices of the host.
pub const SYSFS_DEVICE_PATH: &'static str = "/sys/bus/usb/devices";

/// Largest number of bytes of a driver name that the kernel accepts.
pub const USBFS_MAX_DRIVER_NAME: usize = 255;

/// Size of the buffer that carries a driver name: the name and its terminator.
pub const USBFS_MAX_DRIVER_NAME_FFI: usize = 256;

/// Largest bulk buffer that the host bus takes in one request.
pub const MAX_BULK_BUFFER_LENGTH: usize = 16384;

/// Largest control buffer that the host bus takes in one request.
pub const MAX_CTRL_BUFFER_LENGTH: usize = 4096;

/// Largest number of isochronous packets that the host bus takes in one request.
pub const MAX_ISO_PACKETS_PER_URB: usize = 128;

} // verus!
