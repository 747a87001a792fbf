use alien_daw::volume::{SynthError, VolumeControl};

fn gain(x: f32) -> Result<VolumeControl, SynthError> {
    VolumeControl::try_from(x.to_bits())
}

#[test]
fn try_from_accepts_finite_gains_from_zero_up() {
    for x in [0.0f32, 1.0, 0.5, 2.0, 1.0e-30, f32::MIN_POSITIVE, f32::from_bits(1), f32::MAX] {
        let v = gain(x).expect("a finite gain that is not below zero");
        assert_eq!(v.value(), x.to_bits());
        assert_eq!(f32::from_bits(v.value()), x);
    }
}

#[test]
fn try_from_accepts_negative_zero_as_zero() {
    let v = gain(-0.0).expect("negative zero is zero");
    assert_eq!(f32::from_bits(v.value()), 0.0);
    assert!(f32::from_bits(v.value()) >= 0.0);
}

#[test]
fn try_from_rejects_negative_gains() {
    for x in [-1.0f32, -0.5, -f32::MIN_POSITIVE, f32::from_bits(0x8000_0001), f32::MIN] {
        match gain(x) {
            Err(SynthError::NegativeVolume(bits)) => assert_eq!(bits, x.to_bits()),
            Ok(_) => panic!("{x:?} was accepted"),
        }
    }
}

#[test]
fn try_from_rejects_nan() {
    for bits in [f32::NAN.to_bits(), 0xffc0_0000u32, 0x7f80_0001, 0xffff_ffff] {
        match VolumeControl::try_from(bits) {
            Err(SynthError::NegativeVolume(b)) => assert_eq!(b, bits),
            Ok(_) => panic!("a NaN was accepted"),
        }
    }
}

#[test]
fn try_from_rejects_both_infinities() {
    assert!(matches!(gain(f32::INFINITY), Err(SynthError::NegativeVolume(_))));
    assert!(matches!(gain(f32::NEG_INFINITY), Err(SynthError::NegativeVolume(_))));
}

#[test]
fn try_from_succeeds_exactly_on_finite_gains_from_zero_up() {
    let mut bits: u32 = 0;
    loop {
        let x = f32::from_bits(bits);
        let expected = x.is_finite() && x >= 0.0;
        assert_eq!(VolumeControl::try_from(bits).is_ok(), expected, "encoding {bits:#x}");
        match bits.checked_add(0x0001_0001) {
            Some(next) => bits = next,
            None => break,
        }
    }
}

#[test]
fn default_is_unity() {
    let v = VolumeControl::default();
    assert_eq!(f32::from_bits(v.value()), 1.0);
}

#[test]
fn gains_are_copied() {
    let a = gain(0.75).unwrap();
    let b = a;
    assert_eq!(a.value(), b.value());
}

#[test]
fn error_message_names_the_cause() {
    let e = gain(-1.0).unwrap_err();
    assert_eq!(
        e.message(),
        "VolumeControl value was negative, inf, or nan which are invalid states"
    );
}
