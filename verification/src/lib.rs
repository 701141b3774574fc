//! A Media Transfer Protocol (MTP / PTP) library whose protocol logic is
//! specified and checked by Verus.
//!
//! - `ptp`: protocol codes, binary packing, USB containers, datasets and the
//!   decisions of a PTP session.
//! - `mtp`: the high-level view (device events, storage listing rules).
//! - `transport`: pure helpers of the USB transport.

pub mod error;
pub mod mtp;
pub mod ptp;
pub mod transport;
pub mod text;

pub use error::Error;
