use rvkernel::boot::load_message;
use rvkernel::fatal::{panic_line, panic_message};
use rvkernel::logger::{CPU_FREQ, Level, log_line, timestamp_ms};
use rvkernel::text::{push_decimal, push_hex, push_hex_padded};

#[test]
fn timestamp_one_second() {
    assert_eq!(CPU_FREQ, 10_000_000);
    assert_eq!(timestamp_ms(10_000_000), 1000);
}

#[test]
fn timestamp_zero() {
    assert_eq!(timestamp_ms(0), 0);
}

#[test]
fn timestamp_truncates() {
    assert_eq!(timestamp_ms(9_999), 0);
    assert_eq!(timestamp_ms(10_000), 1);
    assert_eq!(timestamp_ms(19_999), 1);
    assert_eq!(timestamp_ms(25_000_000), 2500);
}

#[test]
fn timestamp_of_largest_reading_is_exact() {
    let expected = (usize::MAX as u128 * 1000 / CPU_FREQ as u128) as u64;
    assert_eq!(timestamp_ms(usize::MAX), expected);
}

#[test]
fn timestamp_is_monotonic() {
    let mut last = 0;
    let mut t: usize = 0;
    while t < 100_000_000 {
        let ms = timestamp_ms(t);
        assert!(ms >= last);
        last = ms;
        t += 9_973;
    }
}

#[test]
fn hex_formats() {
    let mut s = String::new();
    push_hex(&mut s, 0);
    assert_eq!(s, "0");
    let mut s = String::new();
    push_hex(&mut s, 0xdead_beef);
    assert_eq!(s, "deadbeef");
    let mut s = String::new();
    push_hex_padded(&mut s, 0xa, 8);
    assert_eq!(s, "0000000a");
    let mut s = String::from("x");
    push_hex_padded(&mut s, u64::MAX, 8);
    assert_eq!(s, "xffffffffffffffff");
}

#[test]
fn decimal_formats() {
    let mut s = String::new();
    push_decimal(&mut s, 0);
    assert_eq!(s, "0");
    let mut s = String::new();
    push_decimal(&mut s, 1_234_509);
    assert_eq!(s, "1234509");
    let mut s = String::new();
    push_decimal(&mut s, u64::MAX);
    assert_eq!(s, "18446744073709551615");
}

#[test]
fn log_line_layout() {
    assert_eq!(log_line(Level::Info, 10_000_000, "hello"), "[INF] [1000] hello\n");
    assert_eq!(log_line(Level::Warn, 0, "low"), "[WRN] [0] low\n");
    assert_eq!(log_line(Level::Error, 5_000, ""), "[ERR] [0] \n");
}

#[test]
fn panic_report_with_location() {
    assert_eq!(
        panic_message(Some(("src/traps.rs", 42)), "boom"),
        "Kernel panic at line 42, file src/traps.rs: boom"
    );
    assert_eq!(
        panic_line(20_000_000, Some(("a.rs", 7)), "x"),
        "[ERR] [2000] Kernel panic at line 7, file a.rs: x\n"
    );
}

#[test]
fn panic_report_without_location() {
    assert_eq!(panic_message(None, "boom"), "Kernel panic: boom");
    assert_eq!(panic_line(0, None, "boom"), "[ERR] [0] Kernel panic: boom\n");
}

#[test]
fn load_address_line() {
    assert_eq!(load_message(0x8000_0000), "Kernel loaded at address 0x80000000.");
    assert_eq!(load_message(0), "Kernel loaded at address 0x0.");
}
