//! Browse and rank the compute platforms and devices of a machine.
//!
//! The heart of the crate is [`PriorityList`], an ordered partition of
//! elements into a ranked group and an unranked rest; [`laws`] holds what is
//! proved of it. [`clinfo`] holds the records of platforms and devices,
//! [`browse`] the state of the browser that shows them, and [`style`] the
//! colours it picks.
//!
//! Nothing here asks the machine, reads a key or draws: the caller does,
//! and hands plain values in.
//!
//! # What is taken on trust
//!
//! Four calls leave the verified code, each behind a private function that
//! states what is believed of the call: `opencl3::device::vendor_id_text`
//! and `opencl3::device::device_type_text` in [`clinfo`], and
//! `str::to_lowercase` and `str::contains` in [`style`]. Everything else is
//! proved.

pub mod browse;
pub mod clinfo;
pub mod laws;
pub mod priority;
pub mod style;

pub use clinfo::ClState;
pub use clinfo::DeviceInfo;
pub use clinfo::DeviceProperties;
pub use clinfo::PlatformInfo;
pub use clinfo::PlatformProperties;
pub use priority::PriorityList;
pub use priority::PriorityListView;
