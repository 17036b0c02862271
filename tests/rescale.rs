use ffav::codec::{AVRational, AV_NOPTS_VALUE};
use ffav::rescale::rescale_q_near_pass_minmax;

#[test]
fn rescale_microseconds_to_90khz() {
    let us = AVRational::new(1, 1_000_000);
    let khz90 = AVRational::new(1, 90_000);
    assert_eq!(rescale_q_near_pass_minmax(40_000, us, khz90), 3_600);
    assert_eq!(rescale_q_near_pass_minmax(3_600, khz90, us), 40_000);
}

#[test]
fn rescale_rounds_half_away_from_zero() {
    let half = AVRational::new(1, 2);
    let one = AVRational::new(1, 1);
    assert_eq!(rescale_q_near_pass_minmax(1, half, one), 1);
    assert_eq!(rescale_q_near_pass_minmax(-1, half, one), -1);
    assert_eq!(rescale_q_near_pass_minmax(3, half, one), 2);
    assert_eq!(rescale_q_near_pass_minmax(-3, half, one), -2);
    let third = AVRational::new(1, 3);
    assert_eq!(rescale_q_near_pass_minmax(1, third, one), 0);
    assert_eq!(rescale_q_near_pass_minmax(2, third, one), 1);
}

#[test]
fn rescale_passes_unknown_sentinels() {
    let us = AVRational::new(1, 1_000_000);
    let khz90 = AVRational::new(1, 90_000);
    assert_eq!(rescale_q_near_pass_minmax(AV_NOPTS_VALUE, us, khz90), AV_NOPTS_VALUE);
    assert_eq!(rescale_q_near_pass_minmax(i64::MAX, us, khz90), i64::MAX);
    assert_eq!(rescale_q_near_pass_minmax(i64::MIN, khz90, khz90), i64::MIN);
}

#[test]
fn rescale_invalid_ratio_or_overflow_is_unknown() {
    let one = AVRational::new(1, 1);
    let unset = AVRational::new(0, 0);
    assert_eq!(rescale_q_near_pass_minmax(5, one, unset), AV_NOPTS_VALUE);
    assert_eq!(rescale_q_near_pass_minmax(5, unset, unset), AV_NOPTS_VALUE);
    assert_eq!(rescale_q_near_pass_minmax(i64::MAX - 1, one, AVRational::new(1, 2)), AV_NOPTS_VALUE);
}
