//! Device and property management over an audio hardware-abstraction layer.
//!
//! The platform is reached only through a [`hal::Platform`], which owns a
//! function from [`hal::HalRequest`] to [`hal::HalReply`] and keeps a record
//! of the exchanges made. Every operation states which exchanges it adds
//! and what it returns for each reply, so the same code drives the real
//! platform and a simulated one.

pub mod object;
pub mod scope;
pub mod address;
pub mod hal;
pub mod device_property;
pub mod devices;
pub mod default_device;
pub mod source;
pub mod listener;
pub mod registry;
pub mod aggregate;
pub mod audio_unit;
