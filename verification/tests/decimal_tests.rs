use pico2hubris::decimal::u64_to_dec;
use pico2hubris::uptime::{next_report_at, uptime_report, REPORT_PERIOD_MS};

fn render(val: u64) -> (Vec<u8>, [u8; 20]) {
    let mut buf = [0xAAu8; 20];
    let digits = u64_to_dec(val, &mut buf).to_vec();
    (digits, buf)
}

#[test]
fn zero_renders_as_single_digit() {
    let (digits, buf) = render(0);
    assert_eq!(digits, b"0".to_vec());
    assert_eq!(buf[19], b'0');
    assert!(buf[..19].iter().all(|&b| b == 0xAA));
}

#[test]
fn small_numbers_render() {
    assert_eq!(render(7).0, b"7".to_vec());
    assert_eq!(render(9).0, b"9".to_vec());
    assert_eq!(render(10).0, b"10".to_vec());
    assert_eq!(render(12345).0, b"12345".to_vec());
    assert_eq!(render(1000).0, b"1000".to_vec());
}

#[test]
fn digits_sit_at_the_end_of_the_buffer() {
    let (digits, buf) = render(4096);
    assert_eq!(digits, b"4096".to_vec());
    assert_eq!(&buf[16..], b"4096");
    assert!(buf[..16].iter().all(|&b| b == 0xAA));
}

#[test]
fn largest_value_fills_the_buffer() {
    let (digits, buf) = render(u64::MAX);
    assert_eq!(digits, b"18446744073709551615".to_vec());
    assert_eq!(digits.len(), 20);
    assert_eq!(&buf[..], b"18446744073709551615");
}

#[test]
fn rendering_reads_back_to_the_value() {
    for &v in &[0u64, 1, 9, 10, 99, 100, 101, 65535, 1_000_000_007, u64::MAX - 1, u64::MAX] {
        let (digits, _) = render(v);
        let text = String::from_utf8(digits.clone()).unwrap();
        assert_eq!(text.parse::<u64>().unwrap(), v);
        assert!(digits.iter().all(|b| b.is_ascii_digit()));
        assert!(digits[0] != b'0' || v == 0);
        assert_eq!(text, v.to_string());
    }
}

#[test]
fn uptime_report_at_boot() {
    assert_eq!(uptime_report(0), b"uptime: 0s\r\n".to_vec());
}

#[test]
fn uptime_report_truncates_to_whole_seconds() {
    assert_eq!(uptime_report(1999), b"uptime: 1s\r\n".to_vec());
    assert_eq!(uptime_report(2000), b"uptime: 2s\r\n".to_vec());
    assert_eq!(uptime_report(123_456_789), b"uptime: 123456s\r\n".to_vec());
}

#[test]
fn uptime_report_of_largest_time() {
    assert_eq!(uptime_report(u64::MAX), b"uptime: 18446744073709551s\r\n".to_vec());
}

#[test]
fn uptime_reports_every_five_seconds() {
    assert_eq!(REPORT_PERIOD_MS, 5000);
    assert_eq!(next_report_at(0), 5000);
    assert_eq!(next_report_at(12_345), 17_345);
    assert_eq!(next_report_at(u64::MAX - 5000), u64::MAX);
}
