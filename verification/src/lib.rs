//! Safe request and response types for the Linux USBFS ioctl interface, and the
//! conversions between them and the fixed-layout records that the kernel reads.

mod address;
mod command;
mod constants;
mod error;
mod lifecycle;
pub mod text;
mod types;

pub use address::NULL_ADDRESS;
pub use command::UsbfsCommand;
pub use command::UsbfsDirection;
pub use command::UsbfsPayload;
pub use command::USBFS_IOCTL_MAGIC;
pub use constants::MAX_BULK_BUFFER_LENGTH;
pub use constants::MAX_CTRL_BUFFER_LENGTH;
pub use constants::MAX_ISO_PACKETS_PER_URB;
pub use constants::SYSFS_DEVICE_PATH;
pub use constants::SYSFS_MOUNT_PATH;
pub use constants::USBFS_MAX_DRIVER_NAME;
pub use constants::USBFS_MAX_DRIVER_NAME_FFI;
pub use error::errno_number;
pub use error::errno_says_try_again;
pub use error::errno_text;
pub use error::ioctl_result;
pub use error::Error;
pub use error::Result;
pub use lifecycle::reap_answer;
pub use lifecycle::reap_event;
pub use lifecycle::ReapAnswer;
pub use lifecycle::UrbEvent;
pub use lifecycle::UrbState;
pub use types::cap::UsbfsCap;
pub use types::cap::CAP_BULK_CONTINUATION;
pub use types::cap::CAP_BULK_SCATTER_GATHER;
pub use types::cap::CAP_NO_PACKET_SIZE_LIM;
pub use types::cap::CAP_REAP_AFTER_DISCONNECT;
pub use types::cap::CAP_ZERO_PACKET;
pub use types::connect_info::UsbfsConnectInfo;
pub use types::connect_info::UsbfsConnectInfoView;
pub use types::ctrl_transfer::kept_ctrl_data;
pub use types::ctrl_transfer::lemma_kept_ctrl_data;
pub use types::ctrl_transfer::UsbfsCtrlTransfer;
pub use types::ctrl_transfer::UsbfsCtrlTransferFfi;
pub use types::ctrl_transfer::UsbfsCtrlTransferView;
pub use types::ctrl_transfer::MAX_CTRL_DATA;
pub use types::disconnect_claim::UsbfsDisconnectClaim;
pub use types::disconnect_claim::UsbfsDisconnectClaimFlag;
pub use types::disconnect_claim::UsbfsDisconnectClaimView;
pub use types::disconnect_claim::CLAIM_FLAG_EXCEPT_DRIVER;
pub use types::disconnect_claim::CLAIM_FLAG_IF_DRIVER;
pub use types::disconnect_claim::CLAIM_FLAG_NONE;
pub use types::driver::decode_name;
pub use types::driver::encode_name;
pub use types::driver::is_name_buffer;
pub use types::driver::kept_len;
pub use types::driver::lemma_encode_name_shape;
pub use types::driver::lemma_encode_utf8_nonzero;
pub use types::driver::lemma_name_bytes_of_encoded;
pub use types::driver::lemma_name_len_first_zero;
pub use types::driver::lemma_name_round_trip;
pub use types::driver::name_bytes;
pub use types::driver::name_len;
pub use types::driver::DriverName;
pub use types::driver::UsbfsGetDriver;
pub use types::driver::UsbfsGetDriverView;
pub use types::interface::UsbfsSetInterface;
pub use types::interface::UsbfsSetInterfaceView;
pub use types::ioctl::UsbfsIoctl;
pub use types::ioctl::UsbfsIoctlData;
pub use types::ioctl::UsbfsIoctlFfi;
pub use types::ioctl::UsbfsIoctlView;
pub use types::iso_packet_desc::clamped_actual_length;
pub use types::iso_packet_desc::UsbfsIsoPacketDesc;
pub use types::iso_packet_desc::UsbfsIsoPacketDescView;
pub use types::speed::UsbfsSpeed;
pub use types::speed::SPEED_FULL;
pub use types::speed::SPEED_HIGH;
pub use types::speed::SPEED_LOW;
pub use types::speed::SPEED_SUPER;
pub use types::speed::SPEED_SUPER_PLUS;
pub use types::speed::SPEED_UNKNOWN;
pub use types::speed::SPEED_WIRELESS;
pub use types::streams::to_wire_count;
pub use types::streams::wire_count;
pub use types::streams::UsbfsStreams;
pub use types::streams::UsbfsStreamsFfi;
pub use types::streams::UsbfsStreamsView;
pub use types::urb::lemma_packets_round_trip;
pub use types::urb::lemma_wire_fields_of_fitting_lengths;
pub use types::urb::packet_count;
pub use types::urb::packets_as_raw;
pub use types::urb::raw_as_packets;
pub use types::urb::raw_to_signed;
pub use types::urb::reaped_length;
pub use types::urb::signed_to_raw;
pub use types::urb::to_wire_length;
pub use types::urb::wire_length;
pub use types::urb::TransferInfo;
pub use types::urb::TransferInfoFfi;
pub use types::urb::Urb;
pub use types::urb::UrbFfi;
pub use types::urb::UrbUserContext;
pub use types::urb::UrbView;
