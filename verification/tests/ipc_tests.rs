use pico2hubris::board::LedLevel;
use pico2hubris::ping::{
    after_send, count_message, next_count, PingStep, SendOutcome, MAX_COUNT, PAUSE_DELAY,
};
use pico2hubris::pong::{blink_count, BlinkTrain};

#[test]
fn counter_increments_below_the_limit() {
    assert_eq!(next_count(1), 2);
    assert_eq!(next_count(5), 6);
    assert_eq!(next_count(9), 10);
}

#[test]
fn counter_wraps_to_one_after_ten() {
    assert_eq!(MAX_COUNT, 10);
    assert_eq!(next_count(10), 1);
    assert_eq!(next_count(11), 1);
    assert_eq!(next_count(u32::MAX), 1);
    assert_eq!(next_count(0), 1);
}

#[test]
fn counter_cycles_through_one_to_ten() {
    let mut c = 1;
    let mut seen = Vec::new();
    for _ in 0..20 {
        seen.push(c);
        c = next_count(c);
    }
    let expected: Vec<u32> = (1..=10).chain(1..=10).collect();
    assert_eq!(seen, expected);
    assert_eq!(c, 1);
}

#[test]
fn delivered_send_pauses_and_advances() {
    assert_eq!(after_send(3, SendOutcome::Delivered), PingStep { counter: 4, pause: true });
    assert_eq!(after_send(10, SendOutcome::Delivered), PingStep { counter: 1, pause: true });
}

#[test]
fn restarted_peer_is_retried_at_once_with_the_same_count() {
    assert_eq!(after_send(3, SendOutcome::PeerRestarted), PingStep { counter: 3, pause: false });
    assert_eq!(after_send(10, SendOutcome::PeerRestarted), PingStep { counter: 10, pause: false });
}

#[test]
fn count_message_is_little_endian() {
    assert_eq!(count_message(7), [7, 0, 0, 0]);
    assert_eq!(count_message(0x0403_0201), [1, 2, 3, 4]);
    assert_eq!(count_message(u32::MAX), [0xFF; 4]);
}

#[test]
fn blink_count_reads_the_first_four_bytes() {
    assert_eq!(blink_count(Some(&[7, 0, 0, 0])), 7);
    assert_eq!(blink_count(Some(&[1, 2, 3, 4])), 0x0403_0201);
    assert_eq!(blink_count(Some(&[1, 2, 3, 4, 9, 9])), 0x0403_0201);
}

#[test]
fn short_or_failed_message_means_no_blinks() {
    assert_eq!(blink_count(Some(&[1, 2, 3])), 0);
    assert_eq!(blink_count(Some(&[])), 0);
    assert_eq!(blink_count(None), 0);
}

#[test]
fn message_round_trip() {
    for &c in &[0u32, 1, 5, 10, 255, 256, 0xDEAD_BEEF, u32::MAX] {
        let msg = count_message(c);
        assert_eq!(blink_count(Some(&msg)), c);
    }
}

fn drain(train: &mut BlinkTrain) -> Vec<LedLevel> {
    let mut out = Vec::new();
    while let Some(level) = train.next_change() {
        out.push(level);
    }
    out
}

#[test]
fn blink_train_alternates_on_and_off() {
    let mut train = BlinkTrain::new(3);
    let changes = drain(&mut train);
    let (on, off) = (LedLevel::On, LedLevel::Off);
    assert_eq!(changes, vec![on, off, on, off, on, off]);
    assert_eq!(train.next_change(), None);
}

#[test]
fn blink_train_of_zero_is_empty() {
    let mut train = BlinkTrain::new(0);
    assert_eq!(train.next_change(), None);
    assert_eq!(train.next_change(), None);
}

#[test]
fn blink_train_length_is_twice_the_count() {
    for n in [1u32, 2, 10, 57] {
        let changes = drain(&mut BlinkTrain::new(n));
        assert_eq!(changes.len(), 2 * n as usize);
        for (i, c) in changes.iter().enumerate() {
            assert_eq!(*c, if i % 2 == 0 { LedLevel::On } else { LedLevel::Off });
        }
    }
}

#[test]
fn ping_pause_is_three_seconds_at_12_mhz() {
    assert_eq!(PAUSE_DELAY, 36_000_000);
    assert_eq!(PAUSE_DELAY / 12_000_000, 3);
}
