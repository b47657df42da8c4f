//! Screen capture: the decisions and data handling of a capturer, from
//! choosing what to capture to turning the samples of a stream into frames.

use vstd::prelude::*;

pub mod capturer;
pub mod frame;
pub mod pixel_buffer;
pub mod pixels;
pub mod resolution;
pub mod support;
pub mod targets;

pub use capturer::{CapturerBuildError, CapturerError};
pub use support::is_supported;
pub use targets::{Target, TargetError};
