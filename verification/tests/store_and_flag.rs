use netgauge::lifecycle::Lifecycle;
use netgauge::sample::{Rate, TelemetrySample};
use netgauge::store::SampleStore;

fn rate(value: f64) -> Rate {
    Rate::from_bits(value.to_bits())
}

fn sample(receive: f64, transmit: f64) -> TelemetrySample {
    TelemetrySample::new(rate(receive), rate(transmit))
}

#[test]
fn rate_keeps_its_bits() {
    assert_eq!(Rate::from_bits(0).to_bits(), 0);
    assert_eq!(Rate::from_bits(u64::MAX).to_bits(), u64::MAX);
    assert_eq!(f64::from_bits(rate(1234.5).to_bits()), 1234.5);
    assert!(f64::from_bits(rate(f64::NAN).to_bits()).is_nan());
}

#[test]
fn zero_sample_is_zero_point_zero() {
    let zero = TelemetrySample::zeroed();
    assert_eq!(f64::from_bits(zero.receive_rate.to_bits()), 0.0);
    assert_eq!(f64::from_bits(zero.transmit_rate.to_bits()), 0.0);
    assert_eq!(zero, sample(0.0, 0.0));
}

#[test]
fn from_parsed_defaults_each_failed_field_to_zero() {
    assert_eq!(TelemetrySample::from_parsed(Some(rate(1.5)), Some(rate(2.5))), sample(1.5, 2.5));
    assert_eq!(TelemetrySample::from_parsed(None, Some(rate(2.5))), sample(0.0, 2.5));
    assert_eq!(TelemetrySample::from_parsed(Some(rate(1.5)), None), sample(1.5, 0.0));
    assert_eq!(TelemetrySample::from_parsed(None, None), sample(0.0, 0.0));
}

#[test]
fn store_starts_at_zero() {
    assert_eq!(SampleStore::new().read(), TelemetrySample::zeroed());
}

#[test]
fn read_after_write_returns_what_was_written() {
    let mut store = SampleStore::new();
    store.write(sample(1500.0, 3000.0));
    assert_eq!(store.read(), sample(1500.0, 3000.0));
}

#[test]
fn reading_twice_returns_the_same_value() {
    let mut store = SampleStore::new();
    assert_eq!(store.read(), store.read());
    store.write(sample(7.0, 9.0));
    let first = store.read();
    let second = store.read();
    assert_eq!(first, second);
    assert_eq!(first, sample(7.0, 9.0));
}

#[test]
fn newest_write_wins() {
    let mut store = SampleStore::new();
    store.write(sample(1.0, 2.0));
    store.write(sample(3.0, 4.0));
    store.write(sample(5.0, 6.0));
    assert_eq!(store.read(), sample(5.0, 6.0));
}

#[test]
fn store_never_mixes_two_writes() {
    let mut store = SampleStore::new();
    let mut i: u32 = 0;
    while i < 1000 {
        let value = i as f64;
        store.write(sample(value, value));
        let held = store.read();
        assert_eq!(held.receive_rate, held.transmit_rate);
        i += 1;
    }
}

#[test]
fn flag_starts_running() {
    assert!(Lifecycle::new().is_running());
}

#[test]
fn flag_stops_and_stays_stopped() {
    let mut flag = Lifecycle::new();
    flag.shut_down();
    assert!(!flag.is_running());
    flag.shut_down();
    assert!(!flag.is_running());
}

#[test]
fn finite_test_agrees_with_f64_on_edge_patterns() {
    let patterns: [u64; 14] = [
        0,
        1,
        0x000F_FFFF_FFFF_FFFF,
        0x0010_0000_0000_0000,
        0x3FF0_0000_0000_0000,
        0x7FEF_FFFF_FFFF_FFFF,
        0x7FF0_0000_0000_0000,
        0x7FF0_0000_0000_0001,
        0x7FF8_0000_0000_0000,
        0x7FFF_FFFF_FFFF_FFFF,
        0x8000_0000_0000_0000,
        0xFFEF_FFFF_FFFF_FFFF,
        0xFFF0_0000_0000_0000,
        0xFFFF_FFFF_FFFF_FFFF,
    ];
    for bits in patterns {
        assert_eq!(Rate::from_bits(bits).is_finite(), f64::from_bits(bits).is_finite(), "{:016X}", bits);
    }
}

#[test]
fn finite_test_agrees_with_f64_on_every_exponent() {
    let fractions: [u64; 4] = [0, 1, 0x0008_0000_0000_0000, 0x000F_FFFF_FFFF_FFFF];
    let mut exponent: u64 = 0;
    while exponent < 0x800 {
        for sign in [0u64, 1u64] {
            for fraction in fractions {
                let bits = (sign << 63) | (exponent << 52) | fraction;
                assert_eq!(
                    Rate::from_bits(bits).is_finite(),
                    f64::from_bits(bits).is_finite(),
                    "{:016X}",
                    bits
                );
            }
        }
        exponent += 1;
    }
}

#[test]
fn finite_test_on_named_values() {
    assert!(rate(0.0).is_finite());
    assert!(rate(-0.0).is_finite());
    assert!(rate(1500.0).is_finite());
    assert!(rate(-5.0).is_finite());
    assert!(rate(f64::MAX).is_finite());
    assert!(rate(f64::MIN_POSITIVE).is_finite());
    assert!(!rate(f64::INFINITY).is_finite());
    assert!(!rate(f64::NEG_INFINITY).is_finite());
    assert!(!rate(f64::NAN).is_finite());
    assert!(sample(1.0, 2.0).is_finite());
    assert!(!sample(1.0, f64::NAN).is_finite());
    assert!(!sample(f64::INFINITY, 2.0).is_finite());
}

#[test]
fn accept_keeps_only_finite_rates() {
    assert_eq!(Rate::accept(Some(rate(2.5))), Some(rate(2.5)));
    assert_eq!(Rate::accept(Some(rate(-2.5))), Some(rate(-2.5)));
    assert_eq!(Rate::accept(Some(rate(f64::NAN))), None);
    assert_eq!(Rate::accept(Some(rate(f64::INFINITY))), None);
    assert_eq!(Rate::accept(Some(rate(f64::NEG_INFINITY))), None);
    assert_eq!(Rate::accept(None), None);
}

#[test]
fn from_parsed_takes_a_non_finite_rate_as_zero() {
    assert_eq!(TelemetrySample::from_parsed(Some(rate(f64::NAN)), Some(rate(2.5))), sample(0.0, 2.5));
    assert_eq!(TelemetrySample::from_parsed(Some(rate(1.5)), Some(rate(f64::INFINITY))), sample(1.5, 0.0));
    assert_eq!(
        TelemetrySample::from_parsed(Some(rate(f64::NEG_INFINITY)), Some(rate(f64::NAN))),
        sample(0.0, 0.0)
    );
}

#[test]
fn made_finite_changes_only_non_finite_rates() {
    assert_eq!(sample(1.5, 2.5).made_finite(), sample(1.5, 2.5));
    assert_eq!(sample(-1.5, 0.0).made_finite(), sample(-1.5, 0.0));
    assert_eq!(sample(f64::NAN, 2.5).made_finite(), sample(0.0, 2.5));
    assert_eq!(sample(1.5, f64::INFINITY).made_finite(), sample(1.5, 0.0));
}

#[test]
fn store_never_holds_a_non_finite_rate() {
    let mut store = SampleStore::new();
    assert!(store.read().is_finite());
    store.write(sample(f64::NAN, 7.0));
    assert_eq!(store.read(), sample(0.0, 7.0));
    store.write(sample(3.0, f64::INFINITY));
    assert_eq!(store.read(), sample(3.0, 0.0));
    store.write(sample(f64::NEG_INFINITY, f64::NAN));
    assert_eq!(store.read(), sample(0.0, 0.0));
    assert!(store.read().is_finite());
}
