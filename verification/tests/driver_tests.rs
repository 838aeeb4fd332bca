use kernel_core::gpio::{GpioController, GpioDirection, GpioFunction, GpioLevel};
use kernel_core::timer::Timer;
use kernel_core::uart::Uart;

#[test]
fn gpio_init_routes_uart_and_led_pins() {
    let mut gpio = GpioController::new();
    assert_eq!(gpio.init(), Ok(()));
    assert_eq!(gpio.get_pin_control(14) & 0x1F, 2); // UART function
    assert_eq!(gpio.get_pin_control(15) & 0x1F, 2);
    assert_eq!(gpio.get_pin_control(29) & 0x1F, 5); // software I/O
    assert_eq!(gpio.get_pin_control(31) & 0x1F, 5);
    // Both LED pins are outputs, driven low.
    assert_eq!(gpio.direction_register(), (1 << 29) | (1 << 31));
    assert_eq!(gpio.output_register(), 0);
}

#[test]
fn set_level_and_toggle_drive_single_bits() {
    let mut gpio = GpioController::new();
    gpio.set_level(5, GpioLevel::High);
    assert_eq!(gpio.output_register(), 1 << 5);
    gpio.set_level(7, GpioLevel::High);
    assert_eq!(gpio.output_register(), (1 << 5) | (1 << 7));
    gpio.set_level(5, GpioLevel::Low);
    assert_eq!(gpio.output_register(), 1 << 7);
    gpio.toggle_pin(7);
    assert_eq!(gpio.output_register(), 0);
    gpio.toggle_pin(7);
    assert_eq!(gpio.output_register(), 1 << 7);
}

#[test]
fn led_helpers_drive_their_pins() {
    let mut gpio = GpioController::new();
    gpio.set_activity_led(true);
    assert_eq!(gpio.output_register(), 1 << 29);
    gpio.set_power_led(true);
    assert_eq!(gpio.output_register(), (1 << 29) | (1 << 31));
    gpio.set_activity_led(false);
    assert_eq!(gpio.output_register(), 1 << 31);
    gpio.blink_power_led();
    assert_eq!(gpio.output_register(), 0);
    gpio.blink_activity_led();
    assert_eq!(gpio.output_register(), 1 << 29);
}

#[test]
fn levels_are_read_off_the_input_port() {
    let mut gpio = GpioController::new();
    gpio.drive_inputs(1 << 7);
    assert_eq!(gpio.get_level(7), GpioLevel::High);
    assert_eq!(gpio.get_level(8), GpioLevel::Low);
    assert_eq!(gpio.get_level(99), GpioLevel::Low);
}

#[test]
fn out_of_range_pins_are_ignored() {
    let mut gpio = GpioController::new();
    gpio.set_level(54, GpioLevel::High);
    gpio.set_direction(200, GpioDirection::Output);
    gpio.set_function(54, GpioFunction::Uart);
    gpio.toggle_pin(54);
    assert_eq!(gpio.output_register(), 0);
    assert_eq!(gpio.direction_register(), 0);
    assert_eq!(gpio.get_pin_status(54), 0);
    assert_eq!(gpio.get_pin_control(54), 0);
}

#[test]
fn function_codes_match_the_register_encoding() {
    assert_eq!(GpioFunction::Spi.code(), 1);
    assert_eq!(GpioFunction::Uart.code(), 2);
    assert_eq!(GpioFunction::I2c.code(), 3);
    assert_eq!(GpioFunction::Pwm.code(), 4);
    assert_eq!(GpioFunction::Sio.code(), 5);
    assert_eq!(GpioFunction::Pio.code(), 6);
    assert_eq!(GpioFunction::Gpck.code(), 8);
    assert_eq!(GpioFunction::Usb.code(), 9);
    assert_eq!(GpioFunction::Null.code(), 31);
}

#[test]
fn the_timer_counts_microseconds() {
    let mut timer = Timer::new();
    timer.init();
    assert_eq!(timer.get_time_us(), 0);
    timer.advance_us(1_500);
    assert_eq!(timer.get_time_us(), 1_500);
    timer.delay_us(500);
    assert_eq!(timer.get_time_us(), 2_000);
    timer.delay_ms(3);
    assert_eq!(timer.get_time_us(), 5_000);
    assert_eq!(timer.get_uptime_seconds(), 0);
    timer.advance_us(2_500_000);
    assert_eq!(timer.get_uptime_seconds(), 2);
}

#[test]
fn the_timer_counter_wraps_at_its_width() {
    let mut timer = Timer::new();
    timer.advance_us(u64::MAX);
    timer.delay_us(3);
    assert_eq!(timer.get_time_us(), 2);
}

#[test]
fn the_uart_converts_newline_to_crlf() {
    let mut uart = Uart::new();
    uart.write_char('A');
    assert_eq!(uart.transmitted(), &['A' as u32]);
    uart.write_char('\n');
    assert_eq!(uart.transmitted(), &['A' as u32, '\r' as u32, '\n' as u32]);
}

#[test]
fn write_str_sends_every_character() {
    let mut uart = Uart::new();
    uart.write_str("ok\n");
    assert_eq!(
        uart.transmitted(),
        &['o' as u32, 'k' as u32, '\r' as u32, '\n' as u32]
    );
}

#[test]
fn put_hex_prints_eight_uppercase_digits() {
    let mut uart = Uart::new();
    uart.put_hex(0xDEADBEEF);
    let expected: Vec<u32> = "0xDEADBEEF".chars().map(|c| c as u32).collect();
    assert_eq!(uart.transmitted(), expected.as_slice());

    let mut uart2 = Uart::new();
    uart2.put_hex(0);
    let zeros: Vec<u32> = "0x00000000".chars().map(|c| c as u32).collect();
    assert_eq!(uart2.transmitted(), zeros.as_slice());

    let mut uart3 = Uart::new();
    uart3.put_hex(0x1A2);
    let padded: Vec<u32> = "0x000001A2".chars().map(|c| c as u32).collect();
    assert_eq!(uart3.transmitted(), padded.as_slice());
}

#[test]
fn the_mmu_accepts_the_identity_mapping() {
    assert_eq!(kernel_core::mmu::Mmu::init(), Ok(()));
}

#[test]
fn the_gpio_self_test_flashes_the_leds_and_waits() {
    let mut gpio = GpioController::new();
    gpio.init().unwrap();
    let mut timer = Timer::new();
    assert!(gpio.test_gpio_functionality(&mut timer));
    // Both LEDs end up off, and two tenth-of-a-second waits elapsed.
    assert_eq!(gpio.output_register(), 0);
    assert_eq!(timer.get_time_us(), 200_000);
    assert!(kernel_core::gpio::test_gpio(&mut gpio, &mut timer));
    assert_eq!(timer.get_time_us(), 400_000);
}
