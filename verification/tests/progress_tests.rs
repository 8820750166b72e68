use token_airdrop::progress::progress_percent;

#[test]
fn batch_of_three_reports_33_66_100() {
    assert_eq!(progress_percent(0, 3), Some(33));
    assert_eq!(progress_percent(1, 3), Some(66));
    assert_eq!(progress_percent(2, 3), Some(100));
}

#[test]
fn position_outside_the_batch_has_no_percentage() {
    assert_eq!(progress_percent(0, 0), None);
    assert_eq!(progress_percent(3, 3), None);
    assert_eq!(progress_percent(7, 3), None);
}

#[test]
fn percentage_rounds_down_to_zero_in_a_large_batch() {
    assert_eq!(progress_percent(0, 1000), Some(0));
    assert_eq!(progress_percent(9, 1000), Some(1));
    assert_eq!(progress_percent(999, 1000), Some(100));
    assert_eq!(progress_percent(usize::MAX - 1, usize::MAX), Some(100));
}
