use fbxcel_dom::axis::{Axis, AxisSystem, SignedAxis};
use fbxcel_dom::error::{Error, ErrorKind};
use fbxcel_dom::global_settings::load_axis_from_prop;

#[test]
fn valid_pairs_decode_to_the_six_signed_axes() {
    assert_eq!(load_axis_from_prop("Up", 0, 1), Ok(SignedAxis::PosX));
    assert_eq!(load_axis_from_prop("Up", 0, -1), Ok(SignedAxis::NegX));
    assert_eq!(load_axis_from_prop("Up", 1, 1), Ok(SignedAxis::PosY));
    assert_eq!(load_axis_from_prop("Up", 1, -1), Ok(SignedAxis::NegY));
    assert_eq!(load_axis_from_prop("Up", 2, 1), Ok(SignedAxis::PosZ));
    assert_eq!(load_axis_from_prop("Up", 2, -1), Ok(SignedAxis::NegZ));
}

#[test]
fn invalid_code_is_reported_whatever_the_sign() {
    for sign in [1, -1, 0, 7, i32::MIN, i32::MAX] {
        assert_eq!(
            load_axis_from_prop("Front", 3, sign),
            Err(Error::InvalidAxis { axis_name: "Front".to_string(), value: 3 })
        );
        assert_eq!(
            load_axis_from_prop("Front", -1, sign),
            Err(Error::InvalidAxis { axis_name: "Front".to_string(), value: -1 })
        );
    }
}

#[test]
fn invalid_sign_is_reported_when_the_code_is_valid() {
    for code in [0, 1, 2] {
        for sign in [0, 2, -2, i32::MIN, i32::MAX] {
            assert_eq!(
                load_axis_from_prop("Coord", code, sign),
                Err(Error::InvalidAxisSign { axis_name: "Coord".to_string(), value: sign })
            );
        }
    }
}

#[test]
fn the_nine_other_combinations_fail() {
    // code in {0, 1, 2, other} x sign in {1, -1, other}, less the six valid pairs
    let other_code = 9;
    let other_sign = 5;
    let mut failures = 0;
    for code in [0, 1, 2, other_code] {
        for sign in [1, -1, other_sign] {
            let valid = code != other_code && sign != other_sign;
            let r = load_axis_from_prop("OriginalUp", code, sign);
            assert_eq!(r.is_ok(), valid);
            if let Err(e) = r {
                failures += 1;
                assert_eq!(e.kind(), ErrorKind::InvalidEnumValue);
                if code == other_code {
                    assert!(matches!(e, Error::InvalidAxis { value: 9, .. }));
                } else {
                    assert!(matches!(e, Error::InvalidAxisSign { value: 5, .. }));
                }
            }
        }
    }
    assert_eq!(failures, 6);
}

#[test]
fn signed_axis_parts() {
    assert_eq!(SignedAxis::NegY.axis(), Axis::Y);
    assert!(!SignedAxis::NegY.is_positive());
    assert!(SignedAxis::PosZ.is_positive());
    assert_eq!(SignedAxis::new(Axis::Z, true), SignedAxis::PosZ);
    assert_eq!(SignedAxis::new(Axis::X, false), SignedAxis::NegX);
    assert_eq!(SignedAxis::PosX.opposite(), SignedAxis::NegX);
    assert_eq!(SignedAxis::NegZ.opposite(), SignedAxis::PosZ);
}

#[test]
fn axis_system_needs_three_different_axes() {
    let s = AxisSystem::from_up_front_right(SignedAxis::PosY, SignedAxis::PosZ, SignedAxis::PosX)
        .unwrap();
    assert_eq!(s.up(), SignedAxis::PosY);
    assert_eq!(s.front(), SignedAxis::PosZ);
    assert_eq!(s.right(), SignedAxis::PosX);
    // a left-handed system is a system too
    assert!(
        AxisSystem::from_up_front_right(SignedAxis::PosY, SignedAxis::NegZ, SignedAxis::PosX)
            .is_some()
    );
    assert!(
        AxisSystem::from_up_front_right(SignedAxis::PosY, SignedAxis::NegY, SignedAxis::PosX)
            .is_none()
    );
    assert!(
        AxisSystem::from_up_front_right(SignedAxis::PosY, SignedAxis::PosZ, SignedAxis::NegZ)
            .is_none()
    );
    assert!(
        AxisSystem::from_up_front_right(SignedAxis::PosX, SignedAxis::PosZ, SignedAxis::NegX)
            .is_none()
    );
}
