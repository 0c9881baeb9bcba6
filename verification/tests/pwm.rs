use embassy_stm32_pwm::hrtim::{dead_time_settings, frequency_settings};
use embassy_stm32_pwm::{Channel, Hertz, HighResolutionControlPrescaler, OutputCompareMode};
use stm32_metapac::timer::vals::Ocm;

const ALL: [HighResolutionControlPrescaler; 8] = [
    HighResolutionControlPrescaler::Div1,
    HighResolutionControlPrescaler::Div2,
    HighResolutionControlPrescaler::Div4,
    HighResolutionControlPrescaler::Div8,
    HighResolutionControlPrescaler::Div16,
    HighResolutionControlPrescaler::Div32,
    HighResolutionControlPrescaler::Div64,
    HighResolutionControlPrescaler::Div128,
];

#[test]
fn channel_raw_indices() {
    assert_eq!(Channel::Ch1.raw(), 0);
    assert_eq!(Channel::Ch2.raw(), 1);
    assert_eq!(Channel::Ch3.raw(), 2);
    assert_eq!(Channel::Ch4.raw(), 3);
}

#[test]
fn prescaler_divisors() {
    let expected: [u32; 8] = [1, 2, 4, 8, 16, 32, 64, 128];
    for (p, d) in ALL.iter().zip(expected.iter()) {
        assert_eq!(u32::from(*p), *d);
    }
}

#[test]
fn prescaler_encodings() {
    for (i, p) in ALL.iter().enumerate() {
        assert_eq!(u8::from(*p), i as u8);
    }
}

#[test]
fn prescaler_bits_round_trip() {
    for p in ALL.iter() {
        assert_eq!(HighResolutionControlPrescaler::from_bits(u8::from(*p)), *p);
    }
    for b in 0u8..8 {
        assert_eq!(u8::from(HighResolutionControlPrescaler::from_bits(b)), b);
    }
}

#[test]
fn prescaler_divisor_is_power_of_two() {
    for p in ALL.iter() {
        assert_eq!(u32::from(*p), 1u32 << u8::from(*p));
    }
}

#[test]
fn min_high_res_values() {
    assert_eq!(HighResolutionControlPrescaler::compute_min_high_res(0), HighResolutionControlPrescaler::Div1);
    assert_eq!(HighResolutionControlPrescaler::compute_min_high_res(1), HighResolutionControlPrescaler::Div2);
    assert_eq!(HighResolutionControlPrescaler::compute_min_high_res(2), HighResolutionControlPrescaler::Div4);
    assert_eq!(HighResolutionControlPrescaler::compute_min_high_res(3), HighResolutionControlPrescaler::Div4);
    assert_eq!(HighResolutionControlPrescaler::compute_min_high_res(4), HighResolutionControlPrescaler::Div8);
    assert_eq!(HighResolutionControlPrescaler::compute_min_high_res(15), HighResolutionControlPrescaler::Div16);
    assert_eq!(HighResolutionControlPrescaler::compute_min_high_res(16), HighResolutionControlPrescaler::Div32);
    assert_eq!(HighResolutionControlPrescaler::compute_min_high_res(63), HighResolutionControlPrescaler::Div64);
    assert_eq!(HighResolutionControlPrescaler::compute_min_high_res(64), HighResolutionControlPrescaler::Div128);
    assert_eq!(HighResolutionControlPrescaler::compute_min_high_res(127), HighResolutionControlPrescaler::Div128);
}

#[test]
fn min_low_res_values() {
    assert_eq!(HighResolutionControlPrescaler::compute_min_low_res(0), HighResolutionControlPrescaler::Div32);
    assert_eq!(HighResolutionControlPrescaler::compute_min_low_res(31), HighResolutionControlPrescaler::Div32);
    assert_eq!(HighResolutionControlPrescaler::compute_min_low_res(32), HighResolutionControlPrescaler::Div64);
    assert_eq!(HighResolutionControlPrescaler::compute_min_low_res(63), HighResolutionControlPrescaler::Div64);
    assert_eq!(HighResolutionControlPrescaler::compute_min_low_res(64), HighResolutionControlPrescaler::Div128);
    assert_eq!(HighResolutionControlPrescaler::compute_min_low_res(127), HighResolutionControlPrescaler::Div128);
}

#[test]
fn min_prescaler_is_least_above() {
    for val in 0u32..128 {
        let high = HighResolutionControlPrescaler::compute_min_high_res(val);
        assert!(u32::from(high) > val);
        for p in ALL.iter() {
            if u32::from(*p) > val {
                assert!(u32::from(high) <= u32::from(*p));
            }
        }
    }
}

#[test]
fn low_res_is_high_res_from_div32() {
    for val in 0u32..128 {
        let low = HighResolutionControlPrescaler::compute_min_low_res(val);
        let raised = if val < 31 { 31 } else { val };
        assert_eq!(low, HighResolutionControlPrescaler::compute_min_high_res(raised));
    }
}

#[test]
fn min_prescaler_monotonic() {
    for a in 0u32..127 {
        let b = a + 1;
        assert!(
            u32::from(HighResolutionControlPrescaler::compute_min_high_res(a))
                <= u32::from(HighResolutionControlPrescaler::compute_min_high_res(b))
        );
        assert!(
            u32::from(HighResolutionControlPrescaler::compute_min_low_res(a))
                <= u32::from(HighResolutionControlPrescaler::compute_min_low_res(b))
        );
    }
}

#[test]
fn output_compare_mode_to_ocm() {
    assert_eq!(Ocm::from(OutputCompareMode::Frozen), Ocm::FROZEN);
    assert_eq!(Ocm::from(OutputCompareMode::ActiveOnMatch), Ocm::ACTIVE_ON_MATCH);
    assert_eq!(Ocm::from(OutputCompareMode::InactiveOnMatch), Ocm::INACTIVE_ON_MATCH);
    assert_eq!(Ocm::from(OutputCompareMode::Toggle), Ocm::TOGGLE);
    assert_eq!(Ocm::from(OutputCompareMode::ForceInactive), Ocm::FORCE_INACTIVE);
    assert_eq!(Ocm::from(OutputCompareMode::ForceActive), Ocm::FORCE_ACTIVE);
    assert_eq!(Ocm::from(OutputCompareMode::PwmMode1), Ocm::PWM_MODE1);
    assert_eq!(Ocm::from(OutputCompareMode::PwmMode2), Ocm::PWM_MODE2);
}

#[test]
fn output_compare_mode_field_values() {
    assert_eq!(Ocm::from(OutputCompareMode::Frozen).to_bits(), 0);
    assert_eq!(Ocm::from(OutputCompareMode::Toggle).to_bits(), 3);
    assert_eq!(Ocm::from(OutputCompareMode::PwmMode1).to_bits(), 6);
    assert_eq!(Ocm::from(OutputCompareMode::PwmMode2).to_bits(), 7);
}

#[test]
fn frequency_settings_high_res() {
    let (psc, per) = frequency_settings(Hertz(144_000_000), Hertz(20_000), true);
    assert_eq!(psc, HighResolutionControlPrescaler::Div4);
    assert_eq!(per, 57_600);
}

#[test]
fn frequency_settings_low_res() {
    let (psc, per) = frequency_settings(Hertz(144_000_000), Hertz(20_000), false);
    assert_eq!(psc, HighResolutionControlPrescaler::Div32);
    assert_eq!(per, 7_200);
}

#[test]
fn frequency_settings_no_prescaling() {
    // 100 MHz / 1 MHz = 100 ticks; psc_min = 0, so Div1 and 3200 high-res ticks.
    let (psc, per) = frequency_settings(Hertz(100_000_000), Hertz(1_000_000), true);
    assert_eq!(psc, HighResolutionControlPrescaler::Div1);
    assert_eq!(per, 3_200);
}

#[test]
fn frequency_period_fits_register() {
    // Lowest frequency before the largest prescaler no longer suffices.
    let timer_f = 128_000_000u32;
    let f = 489u32; // (128e6 / 489) / 2047 = 127
    let (psc, per) = frequency_settings(Hertz(timer_f), Hertz(f), true);
    assert_eq!(psc, HighResolutionControlPrescaler::Div128);
    assert_eq!(per as u32, 32 * (timer_f / 128) / f);
    assert!((per as u32) < 32 * 2047);
}

#[test]
fn dead_time_settings_small() {
    let (psc, dt) = dead_time_settings(HighResolutionControlPrescaler::Div4, 1000, true);
    assert_eq!(psc, HighResolutionControlPrescaler::Div2);
    assert_eq!(dt, 125);
}

#[test]
fn dead_time_settings_low_res() {
    let (psc, dt) = dead_time_settings(HighResolutionControlPrescaler::Div4, 1000, false);
    assert_eq!(psc, HighResolutionControlPrescaler::Div32);
    assert_eq!(dt, 2000);
}

#[test]
fn dead_time_value_truncated_to_16_bits() {
    // psc_min = 65535 / 2044 = 32 -> Div64; 64 * 65535 / 4 = 1048560 -> low 16 bits 65520.
    let (psc, dt) = dead_time_settings(HighResolutionControlPrescaler::Div1, 65535, true);
    assert_eq!(psc, HighResolutionControlPrescaler::Div64);
    assert_eq!(dt, 65520);
}
