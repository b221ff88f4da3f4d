//! Configuration driver for the WM8978 audio codec.
//!
//! The chip exposes 58 sixteen-bit configuration registers. This crate keeps
//! an in-memory shadow of those registers, seeded with the documented
//! power-on-reset image, and offers semantic operations (input selection,
//! gains, volumes, sample rate, data format, equalizer bands, output routing)
//! that are encoded as bitfield read-modify-write updates of the shadow.
//!
//! Every operation carries a contract that pins down the exact register file
//! it produces; the laws module proves the store and idempotence properties
//! the encoders obey.

pub mod driver;
pub mod encoding;
pub mod image;
pub mod laws;

pub use driver::DriverError;
pub use driver::Wm8978Driver;
pub use encoding::DataFormat;
pub use encoding::I2SWordLength;
pub use encoding::SampleRate;
