use vstd::prelude::*;

pub mod channel;
pub mod compare_mode;
pub mod hrtim;
pub mod prescaler;
pub mod sealed;

pub use channel::Channel;
pub use compare_mode::OutputCompareMode;
pub use hrtim::Hertz;
pub use prescaler::HighResolutionControlPrescaler;

verus! {

/// A high-resolution timer whose outputs can drive PWM.
pub trait HighResolutionCaptureCompare16bitInstance: sealed::HighResolutionCaptureCompare16bitInstance + 'static {}

/// A 16-bit timer with capture/compare channels.
pub trait CaptureCompare16bitInstance: sealed::CaptureCompare16bitInstance + 'static {}

/// An advanced timer with complementary outputs and dead-time insertion.
pub trait ComplementaryCaptureCompare16bitInstance: sealed::ComplementaryCaptureCompare16bitInstance + CaptureCompare16bitInstance + 'static {}

/// A 32-bit timer with capture/compare channels.
pub trait CaptureCompare32bitInstance: sealed::CaptureCompare32bitInstance + CaptureCompare16bitInstance + 'static {}

} // verus!
