use rvkernel::uart::{LSR_OFFSET, THR_OFFSET, UART_BASE, Uart, transmitter_ready};

#[test]
fn puts_queues_bytes_in_order() {
    let mut uart = Uart::new();
    uart.init();
    uart.puts("Hi\n");
    uart.putb(b'!');
    assert_eq!(uart.take_pending(), b"Hi\n!".to_vec());
    assert_eq!(uart.take_pending(), Vec::<u8>::new());
}

#[test]
fn puts_empty_string_queues_nothing() {
    let mut uart = Uart::new();
    uart.puts("");
    assert!(uart.take_pending().is_empty());
}

#[test]
fn ready_follows_thr_empty_bit() {
    assert!(transmitter_ready(0x20));
    assert!(transmitter_ready(0x60));
    assert!(!transmitter_ready(0x00));
    assert!(!transmitter_ready(0xdf));
}

#[test]
fn register_layout() {
    assert_eq!(UART_BASE, 0x1000_0000);
    assert_eq!(THR_OFFSET, 0);
    assert_eq!(LSR_OFFSET, 5);
}
