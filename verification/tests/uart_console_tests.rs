use aethernxt::console::Console;
use aethernxt::console::print;
use aethernxt::uart::UART0_BASE;
use aethernxt::uart::UART_CR;
use aethernxt::uart::UART_DR;
use aethernxt::uart::UART_FR;
use aethernxt::uart::Uart;

#[test]
fn reg_addresses() {
    assert_eq!(Uart::reg(UART_DR), UART0_BASE);
    assert_eq!(Uart::reg(UART_FR), 0x09000018);
    assert_eq!(Uart::reg(UART_CR), 0x09000030);
}

#[test]
fn init_programs_the_device() {
    let mut u = Uart::at_reset();
    u.init();
    assert_eq!(u.cr, 0x301);
    assert_eq!(u.ibrd, 1);
    assert_eq!(u.fbrd, 40);
    assert_eq!(u.lcrh, 0x70);
    assert!(u.tx.is_empty());
}

#[test]
fn putc_appends_raw_bytes() {
    let mut u = Uart::at_reset();
    u.putc(b'A');
    u.putc(b'\n');
    assert_eq!(u.tx, b"A\n".to_vec());
}

#[test]
fn puts_translates_line_feeds() {
    let mut u = Uart::at_reset();
    u.puts("a\nb\n");
    assert_eq!(u.tx, b"a\r\nb\r\n".to_vec());
    u.puts("no newline");
    assert_eq!(u.tx, b"a\r\nb\r\nno newline".to_vec());
}

#[test]
fn print_goes_through_the_uart() {
    let mut c = Console { uart: Uart::at_reset() };
    print(&mut c, "hello\n");
    print(&mut c, "world\n");
    assert_eq!(c.uart.tx, b"hello\r\nworld\r\n".to_vec());
}

#[test]
fn write_bytes_translates_each_line_feed() {
    let mut c = Console { uart: Uart::at_reset() };
    c.write_bytes(&[0x31, 0x0a, 0x32, 0x0a, 0x0a]);
    assert_eq!(c.uart.tx, b"1\r\n2\r\n\r\n".to_vec());
}
