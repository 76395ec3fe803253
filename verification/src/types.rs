pub mod cap;
pub mod connect_info;
pub mod ctrl_transfer;
pub mod disconnect_claim;
pub mod driver;
pub mod interface;
pub mod ioctl;
pub mod iso_packet_desc;
pub mod speed;
pub mod streams;
pub mod urb;
