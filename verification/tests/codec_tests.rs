use phase_pwm::codec::CcmrOutput;
use phase_pwm::codec::ExtCcerAdv;
use phase_pwm::codec::ExtCcr16;
use phase_pwm::codec::OutputCompareMode;
use phase_pwm::regmap::RegisterAddress;
use phase_pwm::regmap::ccer;
use phase_pwm::regmap::ccmr_output;
use phase_pwm::regmap::ccr;

#[test]
fn mode_register_resolver_offsets() {
    assert_eq!(ccmr_output(0, 0).offset, 24);
    assert_eq!(ccmr_output(0, 1).offset, 28);
    assert_eq!(ccmr_output(0, 2).offset, 84);
}

#[test]
fn compare_register_resolver_offsets() {
    assert_eq!(ccr(0, 0).offset, 52);
    assert_eq!(ccr(0, 1).offset, 56);
    assert_eq!(ccr(0, 2).offset, 60);
    assert_eq!(ccr(0, 3).offset, 64);
    assert_eq!(ccr(0, 4).offset, 88);
    assert_eq!(ccr(0, 5).offset, 72);
}

#[test]
fn enable_register_resolver_offset() {
    assert_eq!(ccer(0).offset, 32);
}

#[test]
fn resolver_carries_base_through() {
    let base: usize = 0x4001_0400;
    assert_eq!(ccmr_output(base, 2).base, base);
    assert_eq!(ccr(base, 4).base, base);
    assert_eq!(ccer(base).base, base);
    let a = RegisterAddress {
        base,
        offset: 88,
    };
    assert_eq!(a.address(), base + 88);
}

#[test]
fn standard_threshold_round_trip_all_values() {
    for v in 0..=0xFFFFu32 {
        let mut w = ExtCcr16(0xABCD_0000 | (!v & 0xFFFF));
        w.set_ccr(v as u16);
        assert_eq!(w.ccr(), v as u16);
        assert_eq!(w.0 >> 16, 0xABCD);
    }
}

#[test]
fn extended_threshold_overwrites_whole_word() {
    let mut w = ExtCcr16(0xFFFF_FFFF);
    w.set_ccr_ch5(5);
    assert_eq!(w.0, 5);
    let mut w2 = ExtCcr16(0x2000_1234);
    w2.set_ccr_ch5(0xFFFF);
    assert_eq!(w2.0, 0xFFFF);
}

#[test]
fn group_bit_is_idempotent_and_never_clears() {
    let mut once = ExtCcr16(0xDEAD_BEEF);
    once.set_ccr_group_ch5_ch1();
    assert_eq!(once.0, 0xDEAD_BEEF | (1 << 29));
    let mut twice = once;
    twice.set_ccr_group_ch5_ch1();
    assert_eq!(twice.0, once.0);
    // every bit that was set before is still set
    assert_eq!(once.0 & 0xDEAD_BEEF, 0xDEAD_BEEF);
}

#[test]
fn enable_fields_round_trip_and_isolate() {
    for n in 0..6usize {
        for f in 0..4usize {
            let before = ExtCcerAdv(0x0055_0550);
            let mut w = before;
            match f {
                0 => w.set_cce(n, true),
                1 => w.set_ccp(n, true),
                2 => w.set_ccne(n, true),
                _ => w.set_ccnp(n, true),
            }
            let read_back = match f {
                0 => w.cce(n),
                1 => w.ccp(n),
                2 => w.ccne(n),
                _ => w.ccnp(n),
            };
            assert!(read_back);
            // every bit other than 4n+f is unchanged from before the call
            let touched: u32 = 1 << (4 * n + f);
            assert_eq!(w.0 & !touched, before.0 & !touched);
            for m in 0..6usize {
                for g in 0..4usize {
                    if m == n && g == f {
                        continue;
                    }
                    let now = match g {
                        0 => w.cce(m),
                        1 => w.ccp(m),
                        2 => w.ccne(m),
                        _ => w.ccnp(m),
                    };
                    let was = match g {
                        0 => before.cce(m),
                        1 => before.ccp(m),
                        2 => before.ccne(m),
                        _ => before.ccnp(m),
                    };
                    assert_eq!(now, was);
                }
            }
        }
    }
}

#[test]
fn enable_field_clear_works_too() {
    let mut w = ExtCcerAdv(0xFFFF_FFFF);
    w.set_cce(3, false);
    assert!(!w.cce(3));
    assert_eq!(w.0, 0xFFFF_FFFF & !(1 << 12));
}

#[test]
fn mode_field_round_trip_and_isolation() {
    let mut w = CcmrOutput(0);
    w.set_ocm(0, OutputCompareMode::PwmMode1.to_bits());
    assert_eq!(w.ocm(0), 6);
    assert_eq!(w.ocm(1), 0);
    w.set_ocm(1, OutputCompareMode::PwmMode2.to_bits());
    assert_eq!(w.ocm(0), 6);
    assert_eq!(w.ocm(1), 7);
    assert_eq!(w.0, (6 << 4) | (7 << 12));
}

#[test]
fn mode_encodings() {
    assert_eq!(OutputCompareMode::Frozen.to_bits(), 0);
    assert_eq!(OutputCompareMode::Toggle.to_bits(), 3);
    assert_eq!(OutputCompareMode::PwmMode1.to_bits(), 6);
    assert_eq!(OutputCompareMode::PwmMode2.to_bits(), 7);
}

#[test]
fn codec_defaults_are_zero() {
    assert_eq!(ExtCcr16::default().0, 0);
    assert_eq!(ExtCcerAdv::default().0, 0);
    assert_eq!(CcmrOutput::default().0, 0);
}
