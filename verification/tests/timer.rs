use osv::timer::{fits, next_deadline, MTIME_FREQ, PERIOD};

#[test]
fn period_is_one_second_of_ticks() {
    assert_eq!(MTIME_FREQ, 32_768);
    assert_eq!(PERIOD, 32_768);
    assert_eq!(PERIOD, MTIME_FREQ as u64);
}

#[test]
fn next_deadline_is_one_period_after_the_reading() {
    assert_eq!(next_deadline(0), 32_768);
    assert_eq!(next_deadline(1), 32_769);
    assert_eq!(next_deadline(1_000_000), 1_032_768);
    assert_eq!(next_deadline(32_768), 65_536);
}

#[test]
fn first_timer_interrupt_after_boot() {
    // The counter stood at 1,000,000 at boot and reads 1,000,050 in the
    // first timer interrupt.
    assert_eq!(next_deadline(1_000_050), 1_032_818);
}

#[test]
fn next_deadline_lies_in_the_future() {
    for now in [0u64, 1, 32_767, 1_000_050, u64::MAX - PERIOD] {
        assert!(fits(now));
        assert!(next_deadline(now) > now);
    }
}

#[test]
fn next_deadline_reaches_the_last_value_of_the_register() {
    assert!(fits(u64::MAX - 32_768));
    assert_eq!(next_deadline(u64::MAX - 32_768), u64::MAX);
}

#[test]
fn fits_ends_one_period_before_the_counter_does() {
    assert!(fits(0));
    assert!(fits(u64::MAX - 32_768));
    assert!(!fits(u64::MAX - 32_767));
    assert!(!fits(u64::MAX));
}
