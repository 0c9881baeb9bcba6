use vstd::prelude::*;

use stm32_metapac::timer::vals::Ocm;

verus! {

/// How a channel's output reacts to the comparison of the counter with the
/// channel's compare value.
#[derive(Clone, Copy, Debug, PartialEq, Eq, Structural)]
pub enum OutputCompareMode {
    Frozen,
    ActiveOnMatch,
    InactiveOnMatch,
    Toggle,
    ForceInactive,
    ForceActive,
    PwmMode1,
    PwmMode2,
}

impl OutputCompareMode {
    /// The encoding of the mode in the OCxM field of the capture/compare mode
    /// register.
    pub open spec fn bits(self) -> u8 {
        match self {
            OutputCompareMode::Frozen => 0,
            OutputCompareMode::ActiveOnMatch => 1,
            OutputCompareMode::InactiveOnMatch => 2,
            OutputCompareMode::Toggle => 3,
            OutputCompareMode::ForceInactive => 4,
            OutputCompareMode::ForceActive => 5,
            OutputCompareMode::PwmMode1 => 6,
            OutputCompareMode::PwmMode2 => 7,
        }
    }
}

/// The output-compare mode register value of the peripheral access crate.
#[verifier::external_type_specification]
#[verifier::external_body]
pub struct ExOcm(Ocm);

/// What `Ocm::from_bits` returns for a field value.
pub uninterp spec fn ocm_from_bits(bits: u8) -> Ocm;

/// What `Ocm::to_bits` returns: the field value that an `Ocm` holds.
pub uninterp spec fn ocm_to_bits(ocm: Ocm) -> u8;

/// Calls `Ocm::from_bits`, which keeps the low three bits of its argument as
/// the mode's field value (`val & 0x07`); `to_bits` gives that value back.
#[verifier::external_body]
fn ocm_of_bits(bits: u8) -> (r: Ocm)
    ensures
        r == ocm_from_bits(bits),
        ocm_to_bits(r) == bits % 8,
{
    Ocm::from_bits(bits)
}

impl From<OutputCompareMode> for Ocm {
    fn from(mode: OutputCompareMode) -> (r: Ocm)
        ensures
            ocm_to_bits(r) == mode.bits(),
    {
        let bits: u8 = match mode {
            OutputCompareMode::Frozen => 0,
            OutputCompareMode::ActiveOnMatch => 1,
            OutputCompareMode::InactiveOnMatch => 2,
            OutputCompareMode::Toggle => 3,
            OutputCompareMode::ForceInactive => 4,
            OutputCompareMode::ForceActive => 5,
            OutputCompareMode::PwmMode1 => 6,
            OutputCompareMode::PwmMode2 => 7,
        };
        ocm_of_bits(bits)
    }
}

impl vstd::std_specs::convert::FromSpecImpl<OutputCompareMode> for Ocm {
    open spec fn obeys_from_spec() -> bool {
        true
    }

    open spec fn from_spec(mode: OutputCompareMode) -> Ocm {
        ocm_from_bits(mode.bits())
    }
}

} // verus!
