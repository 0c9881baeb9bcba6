use vstd::prelude::*;

use stm32_metapac::timer::vals::Ckd;

use crate::channel::Channel;
use crate::compare_mode::OutputCompareMode;
use crate::hrtim::Hertz;

verus! {

/// The dead-time clock division register value of the peripheral access crate.
#[verifier::external_type_specification]
#[verifier::external_body]
pub struct ExCkd(Ckd);

/// Register-level control of a high-resolution timer.
pub trait HighResolutionCaptureCompare16bitInstance {
    /// Sets the master timer's prescaler and period for the frequency.
    fn set_master_frequency(frequency: Hertz);

    /// Sets a timing unit's prescaler and period for the frequency.
    fn set_channel_frequency(channnel: usize, frequency: Hertz);

    /// Set the dead time as a proportion of max_duty
    fn set_channel_dead_time(channnel: usize, dead_time: u16);
}

/// Register-level control of a 16-bit timer's capture/compare channels.
pub trait CaptureCompare16bitInstance {
    /// Global output enable. Does not do anything on non-advanced timers.
    fn enable_outputs(&mut self, enable: bool);

    fn set_output_compare_mode(&mut self, channel: Channel, mode: OutputCompareMode);

    fn enable_channel(&mut self, channel: Channel, enable: bool);

    fn set_compare_value(&mut self, channel: Channel, value: u16);

    fn get_max_compare_value(&self) -> u16;
}

/// Register-level control of the complementary outputs of an advanced timer.
pub trait ComplementaryCaptureCompare16bitInstance: CaptureCompare16bitInstance {
    fn set_dead_time_clock_division(&mut self, value: Ckd);

    fn set_dead_time_value(&mut self, value: u8);

    fn enable_complementary_channel(&mut self, channel: Channel, enable: bool);
}

/// Register-level control of a 32-bit timer's capture/compare channels.
pub trait CaptureCompare32bitInstance {
    fn set_output_compare_mode(&mut self, channel: Channel, mode: OutputCompareMode);

    fn enable_channel(&mut self, channel: Channel, enable: bool);

    fn set_compare_value(&mut self, channel: Channel, value: u32);

    fn get_max_compare_value(&self) -> u32;
}

} // verus!
