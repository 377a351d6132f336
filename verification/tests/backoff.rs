use udp2amqp::backoff::backoff_delay_ms;

#[test]
fn backoff_sequence_doubles_from_100ms() {
    assert_eq!(backoff_delay_ms(0, 60000), 100);
    assert_eq!(backoff_delay_ms(1, 60000), 200);
    assert_eq!(backoff_delay_ms(2, 60000), 400);
    assert_eq!(backoff_delay_ms(3, 60000), 800);
    assert_eq!(backoff_delay_ms(4, 60000), 1600);
}

#[test]
fn backoff_caps_at_the_configured_ceiling() {
    assert_eq!(backoff_delay_ms(10, 60000), 60000);
    assert_eq!(backoff_delay_ms(9, 60000), 51200);
}

#[test]
fn backoff_cap_below_first_delay() {
    assert_eq!(backoff_delay_ms(0, 50), 50);
    assert_eq!(backoff_delay_ms(7, 50), 50);
}

#[test]
fn backoff_cap_hit_exactly() {
    assert_eq!(backoff_delay_ms(3, 800), 800);
    assert_eq!(backoff_delay_ms(4, 800), 800);
}

#[test]
fn backoff_huge_retry_count_stays_at_ceiling() {
    assert_eq!(backoff_delay_ms(200, 60000), 60000);
    assert_eq!(backoff_delay_ms(u64::MAX, u64::MAX), u64::MAX);
}
