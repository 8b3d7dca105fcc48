use meteo_types::observation::{all_present_in_range, count_present};

#[test]
fn default_observation_counts_nothing_and_is_plausible() {
    assert_eq!(count_present(&[false; 8]), 0);
    assert!(all_present_in_range(&[None; 8]));
}

#[test]
fn full_observation_counts_all() {
    assert_eq!(count_present(&[true; 8]), 8);
    assert!(all_present_in_range(&[Some(true); 8]));
}

#[test]
fn partial_observation_counts_present() {
    let present = [true, false, true, false, false, false, false, false];
    assert_eq!(count_present(&present), 2);
    let checks = [Some(true), None, Some(true), None, None, None, None, None];
    assert!(all_present_in_range(&checks));
}

#[test]
fn one_implausible_variable_makes_observation_implausible() {
    let checks = [Some(false), None, None, None, None, None, None, None];
    assert!(!all_present_in_range(&checks));
    let checks = [Some(true), Some(true), None, None, None, None, None, Some(false)];
    assert!(!all_present_in_range(&checks));
}

#[test]
fn empty_inputs() {
    assert_eq!(count_present(&[]), 0);
    assert!(all_present_in_range(&[]));
}
