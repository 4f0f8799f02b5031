use solo2_oath::clock::{on_tick, time_step, window_remaining_seconds, TickAction};
use solo2_oath::error::ErrorKind;
use solo2_oath::secret::check_secret;

#[test]
fn remaining_at_step_end_is_one() {
    assert_eq!(window_remaining_seconds(59, 30), 1);
}

#[test]
fn remaining_at_step_start_is_full_period() {
    assert_eq!(window_remaining_seconds(60, 30), 30);
    assert_eq!(window_remaining_seconds(0, 30), 30);
    assert_eq!(window_remaining_seconds(1, 30), 29);
}

#[test]
fn remaining_stays_in_window_for_many_instants() {
    for now in 0u64..200 {
        let r = window_remaining_seconds(now, 30);
        assert!(1 <= r && r <= 30);
        assert_eq!(r, 30 - now % 30);
    }
}

#[test]
fn remaining_at_largest_time() {
    assert_eq!(window_remaining_seconds(u64::MAX, 30), 30 - u64::MAX % 30);
}

#[test]
fn step_of_fifty_nine_is_one() {
    assert_eq!(time_step(59, 30), 1);
    assert_eq!(time_step(60, 30), 2);
    assert_eq!(time_step(29, 30), 0);
}

#[test]
fn tick_refreshes_only_across_a_step() {
    assert_eq!(on_tick(30, 59, 30), TickAction::Redraw { remaining: 1 });
    assert_eq!(on_tick(59, 60, 30), TickAction::Refresh { remaining: 30 });
}

#[test]
fn secret_ignores_case_and_spaces() {
    let a = check_secret("JBSW Y3DP EHPK 3PXP");
    let b = check_secret("jbswy3dpehpk3pxp");
    assert_eq!(a, b);
    assert_eq!(a, Ok(b"JBSWY3DPEHPK3PXP".to_vec()));
}

#[test]
fn secret_accepts_tabs_and_line_breaks() {
    assert_eq!(check_secret("\tJBSWY3DP\nEHPK3PXP\r"), Ok(b"JBSWY3DPEHPK3PXP".to_vec()));
}

#[test]
fn secret_padding_is_completed() {
    // 18 characters: 11 bytes, padded with six `=`.
    assert_eq!(check_secret("JBSWY3DPEHPK3PXPJA"), Ok(b"JBSWY3DPEHPK3PXPJA======".to_vec()));
    assert_eq!(check_secret("JBSWY3DPEHPK3PXPJA======"), Ok(b"JBSWY3DPEHPK3PXPJA======".to_vec()));
    assert_eq!(check_secret("JBSWY3DPEHPK3PXPJE"), Ok(b"JBSWY3DPEHPK3PXPJE======".to_vec()));
}

#[test]
fn secret_wrong_padding_is_refused() {
    assert_eq!(check_secret("JBSWY3DPEHPK3PXPJA==="), Err(ErrorKind::InvalidSecret));
}

#[test]
fn secret_too_short_is_refused() {
    assert_eq!(check_secret("JBSWY3DPEHPK3PX"), Err(ErrorKind::InvalidSecret));
    assert_eq!(check_secret(""), Err(ErrorKind::InvalidSecret));
}

#[test]
fn secret_outside_alphabet_is_refused() {
    assert_eq!(check_secret("JBSWY3DPEHPK3PX1"), Err(ErrorKind::InvalidSecret));
    assert_eq!(check_secret("JBSWY3DPEHPK=3PX"), Err(ErrorKind::InvalidSecret));
}

#[test]
fn secret_impossible_length_is_refused() {
    // 17 characters leave a final group of one, which base32 cannot end with.
    assert_eq!(check_secret("JBSWY3DPEHPK3PXPJ"), Err(ErrorKind::InvalidSecret));
}

#[test]
fn poisoning_errors() {
    assert!(ErrorKind::Transport.invalidates_handle());
    assert!(ErrorKind::Timeout.invalidates_handle());
    assert!(!ErrorKind::UnknownLabel.invalidates_handle());
    assert!(!ErrorKind::NoDevice.invalidates_handle());
}

#[test]
fn secret_with_bits_past_last_byte_is_refused() {
    // The last of 18 characters carries two bits past the eleventh byte.
    assert_eq!(check_secret("JBSWY3DPEHPK3PXPJB"), Err(ErrorKind::InvalidSecret));
    assert_eq!(check_secret("JBSWY3DPEHPK3PXPJB======"), Err(ErrorKind::InvalidSecret));
    // 20 characters leave four spare bits, 21 one, 23 three.
    assert_eq!(check_secret("JBSWY3DPEHPK3PXPJBSQ"), Ok(b"JBSWY3DPEHPK3PXPJBSQ====".to_vec()));
    assert_eq!(check_secret("JBSWY3DPEHPK3PXPJBSR"), Err(ErrorKind::InvalidSecret));
    assert_eq!(check_secret("JBSWY3DPEHPK3PXPJBSWY"), Ok(b"JBSWY3DPEHPK3PXPJBSWY===".to_vec()));
    assert_eq!(check_secret("JBSWY3DPEHPK3PXPJBSWZ"), Err(ErrorKind::InvalidSecret));
    assert_eq!(check_secret("JBSWY3DPEHPK3PXPJBSWY3A"), Ok(b"JBSWY3DPEHPK3PXPJBSWY3A=".to_vec()));
    assert_eq!(check_secret("JBSWY3DPEHPK3PXPJBSWY3B"), Err(ErrorKind::InvalidSecret));
}
