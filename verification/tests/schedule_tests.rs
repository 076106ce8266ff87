use pico2hubris::board::{gpio_mask, LedLevel, LED_PIN};
use pico2hubris::fade::{Fade, FadeStep, FADE_STEP, PWM_HIGH, PWM_LOW, RAMP_LEN};
use pico2hubris::heartbeat::{Heartbeat, HeartbeatAction};
use pico2hubris::spin::{delay, BLINK_SPIN_COUNT};

#[test]
fn heartbeat_pattern_from_start() {
    let mut h = Heartbeat::new(1000);
    let steps: Vec<HeartbeatAction> = (0..6).map(|_| h.step()).collect();
    let expected = vec![
        HeartbeatAction { led: Some(LedLevel::On), wake_at: 1250 },
        HeartbeatAction { led: Some(LedLevel::Off), wake_at: 1500 },
        HeartbeatAction { led: Some(LedLevel::On), wake_at: 1750 },
        HeartbeatAction { led: Some(LedLevel::Off), wake_at: 2000 },
        HeartbeatAction { led: None, wake_at: 3500 },
        HeartbeatAction { led: Some(LedLevel::On), wake_at: 3750 },
    ];
    assert_eq!(steps, expected);
    assert_eq!(h.deadline(), 3750);
}

#[test]
fn heartbeat_period_is_two_and_a_half_seconds() {
    let mut h = Heartbeat::new(0);
    for k in 1..=10u64 {
        for _ in 0..5 {
            h.step();
        }
        assert_eq!(h.deadline(), 2500 * k);
    }
}

#[test]
fn heartbeat_deadlines_increase() {
    let mut h = Heartbeat::new(42);
    let mut last = 42;
    for _ in 0..50 {
        let a = h.step();
        assert!(a.wake_at >= last + 250);
        last = a.wake_at;
    }
}

fn run(f: &mut Fade, n: usize) -> Vec<FadeStep> {
    (0..n).map(|_| f.step()).collect()
}

#[test]
fn fade_ramps_match_the_stepped_ranges() {
    let mut f = Fade::new(0);
    let steps = run(&mut f, 2 * RAMP_LEN as usize);
    let up: Vec<u16> = (PWM_LOW..=PWM_HIGH).step_by(32).collect();
    let down: Vec<u16> = (PWM_LOW..=PWM_HIGH).rev().step_by(32).collect();
    let duties: Vec<u16> = steps.iter().map(|s| s.duty).collect();
    assert_eq!(up.len(), RAMP_LEN as usize);
    assert_eq!(&duties[..RAMP_LEN as usize], &up[..]);
    assert_eq!(&duties[RAMP_LEN as usize..], &down[..]);
    for (i, s) in steps.iter().enumerate() {
        assert_eq!(s.wake_at, i as u64 + 1);
    }
}

#[test]
fn fade_endpoints() {
    let mut f = Fade::new(100);
    let steps = run(&mut f, 4097);
    assert_eq!(steps[0], FadeStep { duty: 0, wake_at: 101 });
    assert_eq!(steps[2047].duty, 65504);
    assert_eq!(steps[2048].duty, 0xFFFF);
    assert_eq!(steps[4095].duty, 31);
    assert_eq!(steps[4096], FadeStep { duty: 0, wake_at: 4197 });
    assert_eq!(FADE_STEP, 32);
}

#[test]
fn fade_ramps_move_by_one_step() {
    let mut f = Fade::new(0);
    let d: Vec<i64> = run(&mut f, 4096).iter().map(|s| s.duty as i64).collect();
    for p in 0..2047 {
        assert_eq!(d[p + 1], d[p] + 32);
    }
    for p in 2048..4095 {
        assert_eq!(d[p + 1], d[p] - 32);
    }
}

#[test]
fn led_mask() {
    assert_eq!(LED_PIN, 25);
    assert_eq!(gpio_mask(LED_PIN), 0x0200_0000);
    assert_eq!(gpio_mask(0), 1);
    assert_eq!(gpio_mask(31), 0x8000_0000);
}

#[test]
fn busy_delay_returns() {
    delay(0);
    delay(BLINK_SPIN_COUNT);
    assert_eq!(BLINK_SPIN_COUNT, 50_000);
}
