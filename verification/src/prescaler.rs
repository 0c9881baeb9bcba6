use vstd::prelude::*;
use vstd::arithmetic::power2::{pow2, lemma2_to64};

verus! {

/// Clock prescaler of the high-resolution timer (HRTIM): the division factor
/// that the CKPSC field of a timer's control register selects.
#[derive(Clone, Copy, Debug, PartialEq, Eq, Structural)]
pub enum HighResolutionControlPrescaler {
    Div1,
    Div2,
    Div4,
    Div8,
    Div16,
    Div32,
    Div64,
    Div128,
}

/// The prescalers in increasing order of their division factor.
pub open spec fn all_prescalers() -> Seq<HighResolutionControlPrescaler> {
    seq![
        HighResolutionControlPrescaler::Div1,
        HighResolutionControlPrescaler::Div2,
        HighResolutionControlPrescaler::Div4,
        HighResolutionControlPrescaler::Div8,
        HighResolutionControlPrescaler::Div16,
        HighResolutionControlPrescaler::Div32,
        HighResolutionControlPrescaler::Div64,
        HighResolutionControlPrescaler::Div128,
    ]
}

/// The prescalers that the timer accepts while its delay-locked loop is not
/// ready (low-resolution mode), in increasing order.
pub open spec fn low_res_prescalers() -> Seq<HighResolutionControlPrescaler> {
    seq![
        HighResolutionControlPrescaler::Div32,
        HighResolutionControlPrescaler::Div64,
        HighResolutionControlPrescaler::Div128,
    ]
}

impl HighResolutionControlPrescaler {
    /// The division factor of the prescaler.
    pub open spec fn divisor(self) -> nat {
        match self {
            HighResolutionControlPrescaler::Div1 => 1,
            HighResolutionControlPrescaler::Div2 => 2,
            HighResolutionControlPrescaler::Div4 => 4,
            HighResolutionControlPrescaler::Div8 => 8,
            HighResolutionControlPrescaler::Div16 => 16,
            HighResolutionControlPrescaler::Div32 => 32,
            HighResolutionControlPrescaler::Div64 => 64,
            HighResolutionControlPrescaler::Div128 => 128,
        }
    }

    /// The 3-bit encoding of the prescaler in the CKPSC register field.
    pub open spec fn bits(self) -> u8 {
        match self {
            HighResolutionControlPrescaler::Div1 => 0,
            HighResolutionControlPrescaler::Div2 => 1,
            HighResolutionControlPrescaler::Div4 => 2,
            HighResolutionControlPrescaler::Div8 => 3,
            HighResolutionControlPrescaler::Div16 => 4,
            HighResolutionControlPrescaler::Div32 => 5,
            HighResolutionControlPrescaler::Div64 => 6,
            HighResolutionControlPrescaler::Div128 => 7,
        }
    }

    /// The prescaler that a 3-bit CKPSC field value selects.
    pub open spec fn from_bits_spec(val: u8) -> Self
        recommends
            val < 8,
    {
        if val == 0 {
            HighResolutionControlPrescaler::Div1
        } else if val == 1 {
            HighResolutionControlPrescaler::Div2
        } else if val == 2 {
            HighResolutionControlPrescaler::Div4
        } else if val == 3 {
            HighResolutionControlPrescaler::Div8
        } else if val == 4 {
            HighResolutionControlPrescaler::Div16
        } else if val == 5 {
            HighResolutionControlPrescaler::Div32
        } else if val == 6 {
            HighResolutionControlPrescaler::Div64
        } else {
            HighResolutionControlPrescaler::Div128
        }
    }

    /// The first prescaler, in increasing order, whose division factor
    /// exceeds `val`.
    pub open spec fn min_high_res(val: u32) -> Self {
        if val < 1 {
            HighResolutionControlPrescaler::Div1
        } else if val < 2 {
            HighResolutionControlPrescaler::Div2
        } else if val < 4 {
            HighResolutionControlPrescaler::Div4
        } else if val < 8 {
            HighResolutionControlPrescaler::Div8
        } else if val < 16 {
            HighResolutionControlPrescaler::Div16
        } else if val < 32 {
            HighResolutionControlPrescaler::Div32
        } else if val < 64 {
            HighResolutionControlPrescaler::Div64
        } else {
            HighResolutionControlPrescaler::Div128
        }
    }

    /// The first of `Div32`, `Div64`, `Div128` whose division factor exceeds
    /// `val`.
    pub open spec fn min_low_res(val: u32) -> Self {
        if val < 32 {
            HighResolutionControlPrescaler::Div32
        } else if val < 64 {
            HighResolutionControlPrescaler::Div64
        } else {
            HighResolutionControlPrescaler::Div128
        }
    }

    /// Decodes a CKPSC field value. Only the values of a 3-bit field name a
    /// prescaler.
    pub fn from_bits(val: u8) -> (r: Self)
        requires
            val < 8,
        ensures
            r == Self::from_bits_spec(val),
            r.bits() == val,
    {
        match val {
            0 => HighResolutionControlPrescaler::Div1,
            1 => HighResolutionControlPrescaler::Div2,
            2 => HighResolutionControlPrescaler::Div4,
            3 => HighResolutionControlPrescaler::Div8,
            4 => HighResolutionControlPrescaler::Div16,
            5 => HighResolutionControlPrescaler::Div32,
            6 => HighResolutionControlPrescaler::Div64,
            _ => HighResolutionControlPrescaler::Div128,
        }
    }

    /// The smallest prescaler whose division factor is greater than `val`.
    /// Every prescaler is a candidate; no prescaler exceeds a value of 128 or
    /// more, so such a value is not accepted.
    pub fn compute_min_high_res(val: u32) -> (r: Self)
        requires
            val < 128,
        ensures
            r == Self::min_high_res(val),
            r.divisor() > val,
            forall|p: Self| #[trigger] p.divisor() > val ==> r.divisor() <= p.divisor(),
    {
        let table: [HighResolutionControlPrescaler; 8] = [
            HighResolutionControlPrescaler::Div1,
            HighResolutionControlPrescaler::Div2,
            HighResolutionControlPrescaler::Div4,
            HighResolutionControlPrescaler::Div8,
            HighResolutionControlPrescaler::Div16,
            HighResolutionControlPrescaler::Div32,
            HighResolutionControlPrescaler::Div64,
            HighResolutionControlPrescaler::Div128,
        ];
        assert(table@ =~= all_prescalers());
        let mut i: usize = 0;
        while i < 8
            invariant
                i <= 8,
                val < 128,
                table@ == all_prescalers(),
                forall|k: int| 0 <= k < i ==> (#[trigger] table@[k]).divisor() <= val,
            decreases 8 - i,
        {
            let psc = table[i];
            let div: u32 = u32::from(psc);
            if div > val {
                return psc;
            }
            i = i + 1;
        }
        assert(table@[7].divisor() <= val);
        HighResolutionControlPrescaler::Div128
    }

    /// The smallest of `Div32`, `Div64` and `Div128` whose division factor
    /// is greater than `val`; a value of 128 or more is not accepted.
    pub fn compute_min_low_res(val: u32) -> (r: Self)
        requires
            val < 128,
        ensures
            r == Self::min_low_res(val),
            r.divisor() > val,
            low_res_prescalers().contains(r),
            forall|p: Self|
                low_res_prescalers().contains(p) && #[trigger] p.divisor() > val ==> r.divisor()
                    <= p.divisor(),
    {
        let table: [HighResolutionControlPrescaler; 3] = [
            HighResolutionControlPrescaler::Div32,
            HighResolutionControlPrescaler::Div64,
            HighResolutionControlPrescaler::Div128,
        ];
        assert(table@ =~= low_res_prescalers());
        let mut i: usize = 0;
        while i < 3
            invariant
                i <= 3,
                val < 128,
                table@ == low_res_prescalers(),
                forall|k: int| 0 <= k < i ==> (#[trigger] table@[k]).divisor() <= val,
            decreases 3 - i,
        {
            let psc = table[i];
            let div: u32 = u32::from(psc);
            if div > val {
                assert(low_res_prescalers()[i as int] == psc);
                return psc;
            }
            i = i + 1;
        }
        assert(table@[2].divisor() <= val);
        HighResolutionControlPrescaler::Div128
    }
}

impl From<HighResolutionControlPrescaler> for u32 {
    fn from(val: HighResolutionControlPrescaler) -> (r: u32) {
        match val {
            HighResolutionControlPrescaler::Div1 => 1,
            HighResolutionControlPrescaler::Div2 => 2,
            HighResolutionControlPrescaler::Div4 => 4,
            HighResolutionControlPrescaler::Div8 => 8,
            HighResolutionControlPrescaler::Div16 => 16,
            HighResolutionControlPrescaler::Div32 => 32,
            HighResolutionControlPrescaler::Div64 => 64,
            HighResolutionControlPrescaler::Div128 => 128,
        }
    }
}

impl vstd::std_specs::convert::FromSpecImpl<HighResolutionControlPrescaler> for u32 {
    open spec fn obeys_from_spec() -> bool {
        true
    }

    open spec fn from_spec(val: HighResolutionControlPrescaler) -> u32 {
        val.divisor() as u32
    }
}

impl From<HighResolutionControlPrescaler> for u8 {
    fn from(val: HighResolutionControlPrescaler) -> (r: u8) {
        match val {
            HighResolutionControlPrescaler::Div1 => 0b000,
            HighResolutionControlPrescaler::Div2 => 0b001,
            HighResolutionControlPrescaler::Div4 => 0b010,
            HighResolutionControlPrescaler::Div8 => 0b011,
            HighResolutionControlPrescaler::Div16 => 0b100,
            HighResolutionControlPrescaler::Div32 => 0b101,
            HighResolutionControlPrescaler::Div64 => 0b110,
            HighResolutionControlPrescaler::Div128 => 0b111,
        }
    }
}

impl vstd::std_specs::convert::FromSpecImpl<HighResolutionControlPrescaler> for u8 {
    open spec fn obeys_from_spec() -> bool {
        true
    }

    open spec fn from_spec(val: HighResolutionControlPrescaler) -> u8 {
        val.bits()
    }
}


/// Decoding the CKPSC encoding of a prescaler gives back that prescaler.
pub proof fn lemma_bits_round_trip(p: HighResolutionControlPrescaler)
    ensures
        p.bits() < 8,
        HighResolutionControlPrescaler::from_bits_spec(p.bits()) == p,
{
}

/// Every 3-bit CKPSC value is the encoding of the prescaler it decodes to.
pub proof fn lemma_from_bits_round_trip(val: u8)
    requires
        val < 8,
    ensures
        HighResolutionControlPrescaler::from_bits_spec(val).bits() == val,
{
}

/// The division factor of a prescaler is two to the power of its CKPSC
/// encoding.
pub proof fn lemma_divisor_is_power_of_two(p: HighResolutionControlPrescaler)
    ensures
        p.divisor() == pow2(p.bits() as nat),
{
    lemma2_to64();
}

/// Raising the value to exceed never lowers the division factor that is
/// chosen, in either mode.
pub proof fn lemma_min_prescaler_monotonic(a: u32, b: u32)
    requires
        a <= b,
    ensures
        HighResolutionControlPrescaler::min_high_res(a).divisor()
            <= HighResolutionControlPrescaler::min_high_res(b).divisor(),
        HighResolutionControlPrescaler::min_low_res(a).divisor()
            <= HighResolutionControlPrescaler::min_low_res(b).divisor(),
{
}

/// The low-resolution choice is the high-resolution choice for a value raised
/// to at least 31, that is, the high-resolution choice kept at `Div32` or
/// above.
pub proof fn lemma_low_res_is_high_res_from_div32(val: u32)
    ensures
        HighResolutionControlPrescaler::min_low_res(val)
            == HighResolutionControlPrescaler::min_high_res(if val < 31 { 31 } else { val }),
        HighResolutionControlPrescaler::min_low_res(val).divisor() == if HighResolutionControlPrescaler::min_high_res(val).divisor() < 32 {
            32
        } else {
            HighResolutionControlPrescaler::min_high_res(val).divisor()
        },
{
}

} // verus!
