//! Bitmap resources of a native windowing toolkit, with the ownership of their
//! handles decided in verified code.
//!
//! A [`Bitmap`] pairs a raw handle with the duty to release it. A
//! [`BitmapBuilder`] collects where the image comes from and how it is to be
//! post-processed; building one is a short dialogue with the platform layer,
//! in which this crate decides which calls may be asked for and what each
//! answer means, and the platform layer only performs the calls.

pub mod bitmap;
pub mod builder;
pub mod error;
pub mod machine;
pub mod oem;
pub mod platform;

pub use bitmap::{Bitmap, BitmapState, BitmapView};
pub use builder::{BitmapBuilder, BitmapConfig};
pub use error::NwgError;
pub use machine::{BuildOutcome, BuildPhase, BuildState, BuildStep, BuildStepView};
pub use oem::OemBitmap;
pub use platform::{PlatformCall, PlatformCallView};
