//! Screen capture for X11: enumerate the attached monitors and grab their
//! framebuffer contents as dense RGB images.
//!
//! The crate separates three concerns:
//! - the geometry model ([`Display`]) describing one monitor's placement,
//! - the pixel normalizer ([`frame`]) turning padded BGRx framebuffers into
//!   dense RGB buffers, and
//! - the capturer facade ([`Capturer`]) composing a capture backend with the
//!   normalizer behind one polymorphic interface.

pub mod backend;
pub mod capturer;
pub mod error;
pub mod geometry;
pub mod frame;
pub mod sim;
pub mod x11;

pub use backend::Backend;
pub use capturer::{Capturer, DisplayCapturer};
pub use error::Error;
pub use geometry::{CoordinateType, Display, ProportionType};
pub use frame::{RawFrame, RgbImage};
pub use sim::SimBackend;
pub use x11::{init_capturer, X11Backend};
