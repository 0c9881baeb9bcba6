use vstd::prelude::*;

use crate::prescaler::HighResolutionControlPrescaler;

verus! {

/// A frequency in hertz.
#[derive(Clone, Copy, Debug, PartialEq, Eq, Structural)]
pub struct Hertz(pub u32);

/// The largest value the period register takes is `u16::MAX`; a timer clocked
/// 32 times faster than the prescaled input (the high-resolution counter)
/// reaches it after `u16::MAX / 32` input ticks.
pub open spec fn ticks_per_prescale_step() -> int {
    2047
}

/// The prescaler that the timer is given for a lower bound `val`: in
/// high-resolution mode (delay-locked loop ready) any of the eight, else
/// only `Div32` and up.
pub open spec fn chosen_prescaler(val: u32, dll_ready: bool) -> HighResolutionControlPrescaler {
    if dll_ready {
        HighResolutionControlPrescaler::min_high_res(val)
    } else {
        HighResolutionControlPrescaler::min_low_res(val)
    }
}

/// The lower bound on the division factor for a timer clocked at `timer_f`
/// that is to run at `f`.
pub open spec fn frequency_psc_min(timer_f: u32, f: u32) -> int {
    (timer_f as int / f as int) / ticks_per_prescale_step()
}

/// The prescaler for a timer clocked at `timer_f` that is to run at `f`.
pub open spec fn frequency_prescaler(timer_f: u32, f: u32, dll_ready: bool) -> HighResolutionControlPrescaler {
    chosen_prescaler(frequency_psc_min(timer_f, f) as u32, dll_ready)
}

/// The period, in high-resolution ticks, of a timer clocked at `timer_f`
/// through a prescaler of factor `div`, that is to run at `f`.
pub open spec fn frequency_period(timer_f: u32, f: u32, div: nat) -> int {
    (32 * (timer_f as int / div as int)) / f as int
}

/// When the frequency settings can be computed: the frequency is not zero,
/// some prescaler is large enough, and the high-resolution clock
/// `32 * (timer_f / div)` fits in 32 bits.
pub open spec fn frequency_settings_defined(timer_f: u32, f: u32, dll_ready: bool) -> bool {
    &&& f > 0
    &&& frequency_psc_min(timer_f, f) < 128
    &&& 32 * (timer_f as int / frequency_prescaler(timer_f, f, dll_ready).divisor() as int)
        <= u32::MAX
}

/// A prescaler larger than `(timer_f / f) / 2047` leaves a period below
/// `32 * 2047` high-resolution ticks, so the period always fits the 16-bit
/// period register.
pub proof fn lemma_period_fits(timer_f: u32, f: u32, div: nat)
    requires
        f > 0,
        div > frequency_psc_min(timer_f, f),
    ensures
        0 <= frequency_period(timer_f, f, div) < 32 * ticks_per_prescale_step(),
{
    let t = timer_f as int;
    let fi = f as int;
    let d = div as int;
    let q = t / fi;
    assert(q / 2047 < d);
    assert(q < 2047 * d) by (nonlinear_arith)
        requires
            q / 2047 < d,
            q >= 0,
    ;
    assert(t < fi * (q + 1)) by (nonlinear_arith)
        requires
            q == t / fi,
            fi > 0,
            t >= 0,
    ;
    assert(t < 2047 * d * fi) by (nonlinear_arith)
        requires
            t < fi * (q + 1),
            q < 2047 * d,
            fi > 0,
    ;
    let s = t / d;
    assert(s < 2047 * fi) by (nonlinear_arith)
        requires
            s == t / d,
            d > 0,
            t >= 0,
            t < 2047 * d * fi,
    ;
    assert((32 * s) / fi < 65504) by (nonlinear_arith)
        requires
            s < 2047 * fi,
            s >= 0,
            fi > 0,
    ;
    assert((32 * s) / fi >= 0) by (nonlinear_arith)
        requires
            s >= 0,
            fi > 0,
    ;
}

/// The prescaler and period with which a high-resolution timer clocked at
/// `timer_frequency` runs at `frequency`: the period register counts in
/// high-resolution ticks, 32 per prescaled input tick.
pub fn frequency_settings(timer_frequency: Hertz, frequency: Hertz, dll_ready: bool) -> (r: (
    HighResolutionControlPrescaler,
    u16,
))
    requires
        frequency_settings_defined(timer_frequency.0, frequency.0, dll_ready),
    ensures
        r.0 == frequency_prescaler(timer_frequency.0, frequency.0, dll_ready),
        r.0.divisor() > frequency_psc_min(timer_frequency.0, frequency.0),
        r.1 == frequency_period(timer_frequency.0, frequency.0, r.0.divisor()),
        r.1 < 32 * ticks_per_prescale_step(),
        r.1 == (32 * (timer_frequency.0 as int / r.0.divisor() as int)) / frequency.0 as int,
        r.1 < 65504,
        r.0.divisor() > (timer_frequency.0 as int / frequency.0 as int) / 2047,
        !dll_ready ==> (r.0 == HighResolutionControlPrescaler::Div32 || r.0 == HighResolutionControlPrescaler::Div64 || r.0 == HighResolutionControlPrescaler::Div128),
        forall|p: HighResolutionControlPrescaler|
            (dll_ready || (p == HighResolutionControlPrescaler::Div32 || p == HighResolutionControlPrescaler::Div64 || p == HighResolutionControlPrescaler::Div128)) && #[trigger] p.divisor() > (timer_frequency.0 as int / frequency.0 as int) / 2047
                ==> r.0.divisor() <= p.divisor(),
{
    let f = frequency.0;
    let timer_f = timer_frequency.0;
    let psc_min = (timer_f / f) / (u16::MAX as u32 / 32);
    let psc = if dll_ready {
        HighResolutionControlPrescaler::compute_min_high_res(psc_min)
    } else {
        HighResolutionControlPrescaler::compute_min_low_res(psc_min)
    };
    let psc_val: u32 = u32::from(psc);
    let timer_f = 32 * (timer_f / psc_val);
    proof {
        lemma_period_fits(timer_frequency.0, f, psc.divisor());
    }
    let per: u16 = (timer_f / f) as u16;
    (psc, per)
}

/// The lower bound on the dead-time prescaler for a timing unit whose
/// prescaler has factor `div`: the dead-time base clock runs four times
/// slower than the timer clock, and the dead-time field holds 9 bits (up to
/// 511).
pub open spec fn dead_time_psc_min(div: nat, dead_time: u16) -> int {
    (div as int * dead_time as int) / (4int * 511int)
}

/// The dead-time prescaler for a timing unit with prescaler `channel_psc`.
pub open spec fn dead_time_prescaler(
    channel_psc: HighResolutionControlPrescaler,
    dead_time: u16,
    dll_ready: bool,
) -> HighResolutionControlPrescaler {
    chosen_prescaler(dead_time_psc_min(channel_psc.divisor(), dead_time) as u32, dll_ready)
}

/// The dead-time value `(dt_div * dead_time) / (4 * div)`, kept to its low 16
/// bits as the 16-bit dead-time fields take it.
pub open spec fn dead_time_value(dt_div: nat, dead_time: u16, div: nat) -> int {
    ((dt_div as int * dead_time as int) / (4 * div as int)) % 0x10000
}

/// The dead-time prescaler and the value written to the rising- and
/// falling-edge dead-time fields of a timing unit whose prescaler is
/// `channel_psc`, for a dead time of `dead_time`.
pub fn dead_time_settings(
    channel_psc: HighResolutionControlPrescaler,
    dead_time: u16,
    dll_ready: bool,
) -> (r: (HighResolutionControlPrescaler, u16))
    requires
        dead_time_psc_min(channel_psc.divisor(), dead_time) < 128,
    ensures
        r.0 == dead_time_prescaler(channel_psc, dead_time, dll_ready),
        r.0.divisor() > dead_time_psc_min(channel_psc.divisor(), dead_time),
        r.1 == dead_time_value(r.0.divisor(), dead_time, channel_psc.divisor()),
        r.0.divisor() > (channel_psc.divisor() as int * dead_time as int) / 2044,
        !dll_ready ==> (r.0 == HighResolutionControlPrescaler::Div32 || r.0 == HighResolutionControlPrescaler::Div64 || r.0 == HighResolutionControlPrescaler::Div128),
        forall|p: HighResolutionControlPrescaler|
            (dll_ready || (p == HighResolutionControlPrescaler::Div32 || p == HighResolutionControlPrescaler::Div64 || p == HighResolutionControlPrescaler::Div128)) && #[trigger] p.divisor() > (channel_psc.divisor() as int * dead_time as int) / 2044
                ==> r.0.divisor() <= p.divisor(),
        r.1 == ((r.0.divisor() * dead_time as int) / (4 * channel_psc.divisor() as int)) % 0x10000,
{
    let psc_val: u32 = u32::from(channel_psc);
    let dead: u32 = dead_time as u32;
    assert(psc_val * dead <= 128 * 65535) by (nonlinear_arith)
        requires
            psc_val <= 128,
            dead <= 65535,
    ;
    let psc_min = (psc_val * dead) / (4 * 511);
    let psc = if dll_ready {
        HighResolutionControlPrescaler::compute_min_high_res(psc_min)
    } else {
        HighResolutionControlPrescaler::compute_min_low_res(psc_min)
    };
    let dt_psc_val: u32 = u32::from(psc);
    assert(dt_psc_val * dead <= 128 * 65535) by (nonlinear_arith)
        requires
            dt_psc_val <= 128,
            dead <= 65535,
    ;
    let dt_val: u32 = (dt_psc_val * dead) / (4 * psc_val);
    let truncated: u16 = dt_val as u16;
    assert(truncated == dt_val % 0x10000) by (bit_vector)
        requires
            truncated == dt_val as u16,
    ;
    (psc, truncated)
}


/// The prescaler chosen for a lower bound `val` exceeds it, is one that the
/// mode accepts (any of the eight with the delay-locked loop ready, else only
/// `Div32`, `Div64`, `Div128`), and no accepted prescaler that exceeds `val`
/// is smaller.
pub proof fn lemma_chosen_prescaler_least(val: u32, dll_ready: bool, p: HighResolutionControlPrescaler)
    requires
        val < 128,
    ensures
        chosen_prescaler(val, dll_ready).divisor() > val,
        !dll_ready ==> (chosen_prescaler(val, dll_ready) == HighResolutionControlPrescaler::Div32 || chosen_prescaler(val, dll_ready) == HighResolutionControlPrescaler::Div64 || chosen_prescaler(val, dll_ready) == HighResolutionControlPrescaler::Div128),
        (dll_ready || (p == HighResolutionControlPrescaler::Div32 || p == HighResolutionControlPrescaler::Div64 || p == HighResolutionControlPrescaler::Div128)) && p.divisor() > val
            ==> chosen_prescaler(val, dll_ready).divisor() <= p.divisor(),
{
}

/// The prescaler for running a timer clocked at `timer_f` at `f` is the
/// smallest that the mode accepts whose factor exceeds `(timer_f / f) / 2047`.
pub proof fn lemma_frequency_prescaler_least(timer_f: u32, f: u32, dll_ready: bool, p: HighResolutionControlPrescaler)
    requires
        f > 0,
        (timer_f as int / f as int) / 2047 < 128,
    ensures
        frequency_prescaler(timer_f, f, dll_ready).divisor() > (timer_f as int / f as int) / 2047,
        !dll_ready ==> (frequency_prescaler(timer_f, f, dll_ready) == HighResolutionControlPrescaler::Div32 || frequency_prescaler(timer_f, f, dll_ready) == HighResolutionControlPrescaler::Div64 || frequency_prescaler(timer_f, f, dll_ready) == HighResolutionControlPrescaler::Div128),
        (dll_ready || (p == HighResolutionControlPrescaler::Div32 || p == HighResolutionControlPrescaler::Div64 || p == HighResolutionControlPrescaler::Div128)) && p.divisor() > (timer_f as int / f as int) / 2047
            ==> frequency_prescaler(timer_f, f, dll_ready).divisor() <= p.divisor(),
{
    let m = (timer_f as int / f as int) / 2047;
    assert(0 <= m) by (nonlinear_arith)
        requires
            f > 0,
            m == (timer_f as int / f as int) / 2047,
    ;
    lemma_chosen_prescaler_least(m as u32, dll_ready, p);
}

/// The dead-time prescaler for a timing unit with prescaler `channel_psc` is
/// the smallest that the mode accepts whose factor exceeds
/// `(div(channel_psc) * dead_time) / 2044`.
pub proof fn lemma_dead_time_prescaler_least(
    channel_psc: HighResolutionControlPrescaler,
    dead_time: u16,
    dll_ready: bool,
    p: HighResolutionControlPrescaler,
)
    requires
        (channel_psc.divisor() as int * dead_time as int) / 2044 < 128,
    ensures
        dead_time_prescaler(channel_psc, dead_time, dll_ready).divisor()
            > (channel_psc.divisor() as int * dead_time as int) / 2044,
        !dll_ready ==> (dead_time_prescaler(channel_psc, dead_time, dll_ready) == HighResolutionControlPrescaler::Div32 || dead_time_prescaler(channel_psc, dead_time, dll_ready) == HighResolutionControlPrescaler::Div64 || dead_time_prescaler(channel_psc, dead_time, dll_ready) == HighResolutionControlPrescaler::Div128),
        (dll_ready || (p == HighResolutionControlPrescaler::Div32 || p == HighResolutionControlPrescaler::Div64 || p == HighResolutionControlPrescaler::Div128)) && p.divisor() > (channel_psc.divisor() as int * dead_time as int) / 2044
            ==> dead_time_prescaler(channel_psc, dead_time, dll_ready).divisor() <= p.divisor(),
{
    let m = (channel_psc.divisor() as int * dead_time as int) / 2044;
    assert(0 <= m) by (nonlinear_arith)
        requires
            m == (channel_psc.divisor() as int * dead_time as int) / 2044,
            channel_psc.divisor() >= 1,
    ;
    lemma_chosen_prescaler_least(m as u32, dll_ready, p);
}

} // verus!
