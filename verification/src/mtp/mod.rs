//! High-level MTP (Media Transfer Protocol) logic: device events, device
//! descriptions, listing rules and download chunking.

pub mod device;
pub mod event;
pub mod listing;
pub mod object;
pub mod stream;

pub use device::{MtpDeviceBuilder, MtpDeviceInfo};
pub use event::DeviceEvent;
pub use stream::{DownloadStream, Progress};
