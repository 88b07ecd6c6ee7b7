use condor::speed_pairs::{check_convex_hull_pairs, configure_scale_speed, ConvexHullError, SpeedScalerError};

#[test]
fn scale_speed_keeps_table_without_request() {
    let mut pairs: Vec<(i8, i8)> = vec![(8, 10), (5, 25)];
    assert!(configure_scale_speed(&mut pairs, None, None).is_ok());
    assert_eq!(pairs, vec![(8, 10), (5, 25)]);

    let mut empty: Vec<(i8, i8)> = Vec::new();
    assert!(configure_scale_speed(&mut empty, None, None).is_ok());
    assert!(empty.is_empty());
}

#[test]
fn scale_speed_custom_pairs() {
    let mut pairs: Vec<(i8, i8)> = Vec::new();
    let result = configure_scale_speed(&mut pairs, Some(&[10_i8, 25, 35]), Some(&[8_i8, 5, 3]));
    assert!(result.is_ok());
    assert_eq!(pairs, vec![(8, 10), (5, 25), (3, 35)]);
}

#[test]
fn scale_speed_mismatched_lengths() {
    let mut pairs: Vec<(i8, i8)> = vec![(4, 30), (6, 40)];
    let result = configure_scale_speed(&mut pairs, Some(&[8_i8, 5, 3]), Some(&[10_i8, 25]));
    assert!(matches!(
        result,
        Err(SpeedScalerError::MismatchedPairs { quantizers: 3, speeds: 2 })
    ));
    assert_eq!(pairs, vec![(4, 30), (6, 40)], "table not modified");
    assert_eq!(
        result.unwrap_err().message(),
        "Mismatched speed-quantizer pairs: got 3 quantizer(s) and 2 speed(s). Each --quantizer must have a matching --speed value."
    );
}

#[test]
fn scale_speed_insufficient_pairs() {
    let mut pairs: Vec<(i8, i8)> = vec![(4, 30), (6, 40)];
    let result = configure_scale_speed(&mut pairs, Some(&[8_i8]), Some(&[10_i8]));
    assert!(matches!(result, Err(SpeedScalerError::MinimumPairsRequired)));
    assert_eq!(pairs, vec![(4, 30), (6, 40)], "table not modified");
    assert_eq!(
        result.unwrap_err().message(),
        "At least 2 speed-quantizer pairs are required."
    );
}

#[test]
fn scale_speed_one_list_given_uses_the_other_from_table() {
    let mut pairs: Vec<(i8, i8)> = vec![(8, 10), (5, 25)];
    let result = configure_scale_speed(&mut pairs, Some(&[12_i8, 30]), None);
    assert!(result.is_ok());
    assert_eq!(pairs, vec![(8, 12), (5, 30)]);

    let result = configure_scale_speed(&mut pairs, None, Some(&[2_i8, 3, 4]));
    assert!(matches!(
        result,
        Err(SpeedScalerError::MismatchedPairs { quantizers: 2, speeds: 3 })
    ));
    assert_eq!(pairs, vec![(8, 12), (5, 30)]);
}

#[test]
fn scale_speed_clearing_the_table() {
    let mut pairs: Vec<(i8, i8)> = vec![(8, 10), (5, 25)];
    let result = configure_scale_speed(&mut pairs, Some(&[]), Some(&[]));
    assert!(result.is_ok());
    assert!(pairs.is_empty());
}

#[test]
fn convex_hull_pairs() {
    let result = check_convex_hull_pairs(&[20, 30, -5], &[6, 4, 2]);
    assert_eq!(result.ok().unwrap(), vec![(6, 20), (4, 30), (2, -5)]);

    let result = check_convex_hull_pairs(&[20], &[6, 4]);
    assert!(matches!(
        result,
        Err(ConvexHullError::MismatchedPairs { quantizers: 1, speeds: 2 })
    ));

    let result = check_convex_hull_pairs(&[20], &[6]);
    assert!(matches!(result, Err(ConvexHullError::MinimumPairsRequired)));
    let result = check_convex_hull_pairs(&[], &[]);
    assert!(matches!(result, Err(ConvexHullError::MinimumPairsRequired)));
    assert_eq!(
        ConvexHullError::MismatchedPairs { quantizers: 12, speeds: 0 }.message(),
        "Mismatched speed-quantizer pairs: got 12 quantizer(s) and 0 speed(s). Each --quantizer must have a matching --speed value."
    );
}
