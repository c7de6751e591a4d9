use aim_calibrate::calculations::{
    calculate_cm, calculate_counts, calculate_scoped_counts, calculate_sens, calculate_yaw,
    captured_fov, cm_from_counts, convert_sensitivity, estimate_fov, FovAngle,
};
use aim_calibrate::error::MathError;
use aim_calibrate::fixed::{
    count_from, fixed_from, magnitude, mul_capped, mul_capped_signed, round_div_exec,
    round_quotient, trunc_div_exec, Fixed, SCALE,
};

fn fx(raw: i64) -> Fixed {
    Fixed::new(raw)
}

fn angle(degrees: i64, half_tan: i64) -> FovAngle {
    FovAngle { degrees: fx(degrees), half_tan: fx(half_tan) }
}

#[test]
fn scale_is_nine_decimal_places() {
    assert_eq!(SCALE, 1_000_000_000);
    assert_eq!(Fixed::from_int(3).raw, 3_000_000_000);
    assert_eq!(Fixed::from_int(-7).raw, -7_000_000_000);
    assert_eq!(Fixed::new(42).raw, 42);
}

#[test]
fn round_quotient_rounds_to_nearest_with_ties_up() {
    assert_eq!(round_quotient(7, 2), 4);
    assert_eq!(round_quotient(6, 4), 2);
    assert_eq!(round_quotient(5, 4), 1);
    assert_eq!(round_quotient(0, 9), 0);
    assert_eq!(round_quotient(u128::MAX, 1), u128::MAX);
    assert_eq!(round_quotient(u128::MAX, u128::MAX), 1);
    assert_eq!(round_quotient(1, u128::MAX), 0);
}

#[test]
fn round_div_exec_rounds_half_away_from_zero() {
    assert_eq!(round_div_exec(5, 2), 3);
    assert_eq!(round_div_exec(-5, 2), -3);
    assert_eq!(round_div_exec(5, -2), -3);
    assert_eq!(round_div_exec(-5, -2), 3);
    assert_eq!(round_div_exec(4, 3), 1);
    assert_eq!(round_div_exec(-4, 3), -1);
    assert_eq!(round_div_exec(0, -3), 0);
}

#[test]
fn trunc_div_exec_drops_the_fraction() {
    assert_eq!(trunc_div_exec(7, 2), 3);
    assert_eq!(trunc_div_exec(-7, 2), -3);
    assert_eq!(trunc_div_exec(7, -2), -3);
    assert_eq!(trunc_div_exec(-7, -2), 3);
    assert_eq!(trunc_div_exec(1, 2), 0);
}

#[test]
fn magnitude_of_the_extremes() {
    assert_eq!(magnitude(0), 0);
    assert_eq!(magnitude(-1), 1);
    assert_eq!(magnitude(i128::MAX), i128::MAX as u128);
    assert_eq!(magnitude(i128::MIN), (i128::MAX as u128) + 1);
}

#[test]
fn mul_capped_stops_at_the_cap() {
    assert_eq!(mul_capped(6, 7, 42), Some(42));
    assert_eq!(mul_capped(6, 7, 41), None);
    assert_eq!(mul_capped(0, u128::MAX, 0), Some(0));
    assert_eq!(mul_capped(u128::MAX, 0, 0), Some(0));
    assert_eq!(mul_capped(u128::MAX, 2, u128::MAX), None);
    assert_eq!(mul_capped(u128::MAX, 1, u128::MAX), Some(u128::MAX));
}

#[test]
fn mul_capped_signed_keeps_the_sign() {
    assert_eq!(mul_capped_signed(-6, 7, 42), Some(-42));
    assert_eq!(mul_capped_signed(-6, -7, 42), Some(42));
    assert_eq!(mul_capped_signed(6, -7, 41), None);
    assert_eq!(mul_capped_signed(0, -7, 0), Some(0));
}

#[test]
fn fixed_from_and_count_from_check_the_range() {
    assert_eq!(fixed_from(i64::MAX as i128), Ok(fx(i64::MAX)));
    assert_eq!(fixed_from(i64::MIN as i128), Ok(fx(i64::MIN)));
    assert_eq!(fixed_from(i64::MAX as i128 + 1), Err(MathError::Overflow));
    assert_eq!(fixed_from(i64::MIN as i128 - 1), Err(MathError::Overflow));
    assert_eq!(count_from(i32::MAX as i128), Ok(i32::MAX));
    assert_eq!(count_from(i32::MIN as i128), Ok(i32::MIN));
    assert_eq!(count_from(i32::MAX as i128 + 1), Err(MathError::Overflow));
    assert_eq!(count_from(i32::MIN as i128 - 1), Err(MathError::Overflow));
}

#[test]
fn counts_of_one_inch_at_800_dpi() {
    assert_eq!(calculate_counts(fx(2_540_000_000), 800), Ok(800));
}

#[test]
fn counts_round_to_the_nearest_count() {
    assert_eq!(calculate_counts(fx(30_000_000_000), 800), Ok(9449));
    assert_eq!(calculate_counts(fx(1_270_000_000), 1), Ok(1));
    assert_eq!(calculate_counts(fx(1_269_999_999), 1), Ok(0));
    assert_eq!(calculate_counts(fx(-1_270_000_000), 1), Ok(-1));
    assert_eq!(calculate_counts(fx(-2_540_000_000), 800), Ok(-800));
    assert_eq!(calculate_counts(fx(2_540_000_000), -800), Ok(-800));
    assert_eq!(calculate_counts(fx(0), 800), Ok(0));
    assert_eq!(calculate_counts(fx(2_540_000_000), 0), Ok(0));
}

#[test]
fn counts_that_do_not_fit_overflow() {
    assert_eq!(calculate_counts(fx(i64::MAX), 800), Err(MathError::Overflow));
    assert_eq!(calculate_counts(fx(i64::MIN), i32::MIN), Err(MathError::Overflow));
    assert_eq!(calculate_counts(fx(2_540_000_000), i32::MAX), Ok(i32::MAX));
}

#[test]
fn scoped_counts_with_equal_fov_are_the_counts() {
    let right = angle(90_000_000_000, 1_000_000_000);
    let wide = angle(103_000_000_000, 1_257_172_330);
    let narrow = angle(-20_000_000_000, -176_326_981);
    let mice = [(30_000_000_000i64, 800), (2_540_000_000, 800), (51_954_545_455, 1600), (-7, 3)];
    for (cm, dpi) in mice {
        for fov in [right, wide, narrow] {
            assert_eq!(
                calculate_scoped_counts(fx(cm), dpi, fov, fov),
                calculate_counts(fx(cm), dpi)
            );
        }
    }
}

#[test]
fn scoped_counts_scale_by_the_tangents() {
    let normal = angle(90_000_000_000, 1_000_000_000);
    let scoped = angle(45_000_000_000, 414_213_562);
    assert_eq!(calculate_scoped_counts(fx(30_000_000_000), 800, normal, scoped), Ok(22812));
    assert_eq!(calculate_scoped_counts(fx(30_000_000_000), 800, scoped, normal), Ok(3914));
}

#[test]
fn scoped_counts_refuse_a_singular_fov() {
    let fine = angle(90_000_000_000, 1_000_000_000);
    for degrees in [180_000_000_000i64, -180_000_000_000, 540_000_000_000, -900_000_000_000] {
        let flat = angle(degrees, 1);
        assert!(flat.is_singular());
        assert_eq!(
            calculate_scoped_counts(fx(30_000_000_000), 800, flat, fine),
            Err(MathError::FovSingularity)
        );
        assert_eq!(
            calculate_scoped_counts(fx(30_000_000_000), 800, fine, flat),
            Err(MathError::FovSingularity)
        );
    }
    for degrees in [0i64, 360_000_000_000, 179_999_999_999, 180_000_000_001, 90_000_000_000] {
        assert!(!angle(degrees, 1).is_singular());
    }
}

#[test]
fn scoped_counts_errors_in_order() {
    let fine = angle(90_000_000_000, 1_000_000_000);
    let flat = angle(180_000_000_000, 0);
    let level = angle(0, 0);
    // a singular angle comes before everything else
    assert_eq!(
        calculate_scoped_counts(fx(i64::MAX), 800, fine, flat),
        Err(MathError::FovSingularity)
    );
    // then the counts themselves
    assert_eq!(calculate_scoped_counts(fx(i64::MAX), 800, fine, level), Err(MathError::Overflow));
    // then the tangent of the scoped angle
    assert_eq!(
        calculate_scoped_counts(fx(30_000_000_000), 800, fine, level),
        Err(MathError::DivisionByZero)
    );
    // then the size of the result
    let sliver = angle(1, 1);
    assert_eq!(
        calculate_scoped_counts(fx(30_000_000_000), 800, fine, sliver),
        Err(MathError::Overflow)
    );
    assert_eq!(calculate_scoped_counts(fx(30_000_000_000), 800, level, fine), Ok(0));
}

#[test]
fn yaw_per_count() {
    assert_eq!(calculate_yaw(400, fx(1_000_000_000)), Ok(fx(900_000_000)));
}

#[test]
fn yaw_rounds_to_the_last_place() {
    assert_eq!(calculate_yaw(16363, fx(1_000_000_000)), Ok(fx(22_000_856)));
    assert_eq!(calculate_yaw(360, fx(-1_000_000_000)), Ok(fx(-1_000_000_000)));
}

#[test]
fn yaw_needs_positive_counts_and_a_sensitivity() {
    assert_eq!(calculate_yaw(0, fx(1_000_000_000)), Err(MathError::DivisionByZero));
    assert_eq!(calculate_yaw(-5, fx(1_000_000_000)), Err(MathError::DivisionByZero));
    assert_eq!(calculate_yaw(400, fx(0)), Err(MathError::DivisionByZero));
    assert_eq!(calculate_yaw(1, fx(1)), Err(MathError::Overflow));
}

#[test]
fn fov_is_twice_yaw_counts_sens() {
    assert_eq!(estimate_fov(fx(2_000_000_000), fx(22_000_000), 1000), Ok(fx(88_000_000_000)));
    assert_eq!(estimate_fov(fx(2_000_000_000), fx(22_000_000), -1000), Ok(fx(-88_000_000_000)));
    assert_eq!(estimate_fov(fx(0), fx(22_000_000), 1000), Ok(fx(0)));
    assert_eq!(estimate_fov(fx(1), fx(1), 1), Ok(fx(0)));
    assert_eq!(estimate_fov(fx(250_000_000), fx(1_000_000_000), 1), Ok(fx(500_000_000)));
}

#[test]
fn fov_that_does_not_fit_overflows() {
    assert_eq!(estimate_fov(fx(i64::MAX), fx(i64::MAX), i32::MAX), Err(MathError::Overflow));
    assert_eq!(estimate_fov(fx(i64::MIN), fx(i64::MIN), i32::MIN), Err(MathError::Overflow));
    assert_eq!(estimate_fov(fx(i64::MAX), fx(1_000_000_000), 1), Err(MathError::Overflow));
    assert_eq!(estimate_fov(fx(i64::MAX), fx(500_000_000), 1), Ok(fx(i64::MAX)));
}

#[test]
fn cm_from_sensitivity_and_yaw() {
    assert_eq!(calculate_cm(fx(1_000_000_000), 800, fx(22_000_000)), Ok(fx(51_954_545_455)));
    assert_eq!(calculate_cm(fx(2_350_000_000), 1600, fx(6_600_000)), Ok(fx(36_847_195_358)));
    assert_eq!(calculate_cm(fx(-1_000_000_000), 800, fx(22_000_000)), Ok(fx(-51_954_545_455)));
}

#[test]
fn sensitivity_from_cm_and_yaw() {
    assert_eq!(calculate_sens(fx(51_954_545_455), 800, fx(22_000_000)), Ok(fx(1_000_000_000)));
    assert_eq!(calculate_sens(fx(36_847_195_358), 1600, fx(6_600_000)), Ok(fx(2_350_000_000)));
}

#[test]
fn sensitivity_survives_the_round_trip() {
    for sens in [1_000i64, 999_999, 1_000_000, 1_000_000_000, 2_350_000_000, 77_777_777_777] {
        for yaw in [6_600_000i64, 22_000_000, 70_000_000, 1_000_000_000] {
            for dpi in [400, 800, 1600, 16_000] {
                let cm = calculate_cm(fx(sens), dpi, fx(yaw)).unwrap();
                assert!(cm.raw > 0);
                let back = calculate_sens(cm, dpi, fx(yaw)).unwrap();
                let error = (back.raw as i128 - sens as i128).abs();
                assert!(2 * (cm.raw as i128) * error < sens as i128 + cm.raw as i128);
                if cm.raw >= sens {
                    assert_eq!(back, fx(sens));
                }
            }
        }
    }
}

#[test]
fn turn_quotient_errors() {
    assert_eq!(calculate_cm(fx(0), 800, fx(22_000_000)), Err(MathError::DivisionByZero));
    assert_eq!(calculate_cm(fx(1_000_000_000), 0, fx(22_000_000)), Err(MathError::DivisionByZero));
    assert_eq!(calculate_cm(fx(1_000_000_000), 800, fx(0)), Err(MathError::DivisionByZero));
    assert_eq!(calculate_sens(fx(0), 800, fx(22_000_000)), Err(MathError::DivisionByZero));
    assert_eq!(calculate_cm(fx(1), 1, fx(1)), Err(MathError::Overflow));
    assert_eq!(calculate_sens(fx(-1), 1, fx(1)), Err(MathError::Overflow));
}

#[test]
fn turn_quotient_of_a_huge_product_is_zero() {
    assert_eq!(calculate_cm(fx(i64::MAX), i32::MAX, fx(i64::MAX)), Ok(fx(0)));
    assert_eq!(calculate_sens(fx(i64::MIN), i32::MIN, fx(i64::MIN)), Ok(fx(0)));
}

#[test]
fn convert_goes_through_cm() {
    assert_eq!(
        convert_sensitivity(fx(1_000_000_000), 800, 1600, fx(22_000_000), fx(6_600_000)),
        Ok(fx(1_666_666_667))
    );
    assert_eq!(
        convert_sensitivity(fx(1_000_000_000), 800, 800, fx(22_000_000), fx(22_000_000)),
        Ok(fx(1_000_000_000))
    );
    assert_eq!(
        convert_sensitivity(fx(0), 800, 800, fx(22_000_000), fx(22_000_000)),
        Err(MathError::DivisionByZero)
    );
    // the centimetres in between round to zero, and nothing divides by them
    assert_eq!(
        convert_sensitivity(fx(i64::MAX), i32::MAX, 800, fx(i64::MAX), fx(22_000_000)),
        Err(MathError::DivisionByZero)
    );
}

#[test]
fn cm_from_captured_counts() {
    assert_eq!(cm_from_counts(800, 800), Ok(fx(2_540_000_000)));
    assert_eq!(cm_from_counts(16363, 1600), Ok(fx(25_976_262_500)));
    assert_eq!(cm_from_counts(0, 800), Ok(fx(0)));
    assert_eq!(cm_from_counts(800, 0), Err(MathError::DivisionByZero));
    assert_eq!(cm_from_counts(800, -800), Ok(fx(-2_540_000_000)));
}

#[test]
fn fov_from_captured_counts() {
    // 30 cm at 800 dpi are 9448 whole counts; at sensitivity 2 one count is
    // 0.019051651 degrees
    assert_eq!(
        captured_fov(2362, fx(30_000_000_000), 800, fx(2_000_000_000)),
        Ok(fx(179_999_998_648))
    );
    assert_eq!(captured_fov(2362, fx(0), 800, fx(2_000_000_000)), Err(MathError::DivisionByZero));
    assert_eq!(
        captured_fov(2362, fx(30_000_000_000), 800, fx(0)),
        Err(MathError::DivisionByZero)
    );
    assert_eq!(captured_fov(2362, fx(i64::MAX), 800, fx(2_000_000_000)), Err(MathError::Overflow));
}
