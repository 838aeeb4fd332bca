//! The GPIO block driver.
//!
//! The pin-control registers (one control and one status word per pin) and
//! the software-I/O port registers (output, output-enable, input) are held
//! as owned state.  The port registers are one 32-bit word wide, so a pin
//! index is taken modulo the word width, exactly as the hardware decodes
//! the write.

use vstd::prelude::*;

use crate::timer::Timer;

verus! {

/// How many pins the block carries.
pub const GPIO_PIN_COUNT: u32 = 54;

/// Activity LED (green).
pub const GPIO_LED_ACT: u32 = 29;

/// Power LED (red).
pub const GPIO_LED_PWR: u32 = 31;

/// UART transmit pin.
pub const GPIO_UART_TX: u32 = 14;

/// UART receive pin.
pub const GPIO_UART_RX: u32 = 15;

/// The function-select field of a pin-control register.
pub const GPIO_CTRL_FUNCSEL_MASK: u32 = 0x1F;

#[derive(Clone, Copy, Debug, PartialEq, Eq, Structural)]
pub enum GpioDirection {
    Input,
    Output,
}

#[derive(Clone, Copy, Debug, PartialEq, Eq, Structural)]
pub enum GpioLevel {
    Low,
    High,
}

#[derive(Clone, Copy, Debug, PartialEq, Eq, Structural)]
pub enum GpioFunction {
    Spi,
    Uart,
    I2c,
    Pwm,
    Sio,
    Pio,
    Gpck,
    Usb,
    Null,
}

/// The function-select code of each pin function.
pub open spec fn spec_function_code(f: GpioFunction) -> u32 {
    match f {
        GpioFunction::Spi => 1,
        GpioFunction::Uart => 2,
        GpioFunction::I2c => 3,
        GpioFunction::Pwm => 4,
        GpioFunction::Sio => 5,
        GpioFunction::Pio => 6,
        GpioFunction::Gpck => 8,
        GpioFunction::Usb => 9,
        GpioFunction::Null => 31,
    }
}

impl GpioFunction {
    /// The function-select code written into a pin's control register.
    pub fn code(&self) -> (r: u32)
        ensures
            r == spec_function_code(*self),
    {
        match self {
            GpioFunction::Spi => 1,
            GpioFunction::Uart => 2,
            GpioFunction::I2c => 3,
            GpioFunction::Pwm => 4,
            GpioFunction::Sio => 5,
            GpioFunction::Pio => 6,
            GpioFunction::Gpck => 8,
            GpioFunction::Usb => 9,
            GpioFunction::Null => 31,
        }
    }
}

/// The bit a pin occupies in the one-word-wide port registers.
pub open spec fn spec_pin_mask(pin: u32) -> u32 {
    1u32 << (pin % 32)
}

/// The mathematical state of the GPIO block.
#[verifier::ext_equal]
pub struct GpioView {
    /// One control word per pin.
    pub ctrl: Seq<u32>,
    /// One status word per pin.
    pub status: Seq<u32>,
    /// The software-I/O output port.
    pub sio_out: u32,
    /// The software-I/O output-enable port.
    pub sio_oe: u32,
    /// The software-I/O input port, driven from the pads.
    pub sio_in: u32,
}

impl GpioView {
    pub open spec fn wf(self) -> bool {
        &&& self.ctrl.len() == GPIO_PIN_COUNT
        &&& self.status.len() == GPIO_PIN_COUNT
    }

    /// The block at reset: every register zero.
    pub open spec fn is_reset(self) -> bool {
        &&& forall|p: int| 0 <= p < GPIO_PIN_COUNT ==> self.ctrl[p] == 0 && self.status[p] == 0
        &&& self.sio_out == 0
        &&& self.sio_oe == 0
        &&& self.sio_in == 0
    }
}

pub struct GpioController {
    ctrl: Vec<u32>,
    status: Vec<u32>,
    sio_out: u32,
    sio_oe: u32,
    sio_in: u32,
}

impl View for GpioController {
    type V = GpioView;

    closed spec fn view(&self) -> GpioView {
        GpioView {
            ctrl: self.ctrl@,
            status: self.status@,
            sio_out: self.sio_out,
            sio_oe: self.sio_oe,
            sio_in: self.sio_in,
        }
    }
}

impl GpioController {
    pub open spec fn wf(&self) -> bool {
        self@.wf()
    }

    /// The block at reset.
    pub fn new() -> (r: GpioController)
        ensures
            r.wf(),
            r@.is_reset(),
    {
        GpioController {
            ctrl: reset_bank(GPIO_PIN_COUNT as usize),
            status: reset_bank(GPIO_PIN_COUNT as usize),
            sio_out: 0,
            sio_oe: 0,
            sio_in: 0,
        }
    }

    /// Boot-time setup from reset: checks the registers answer, routes the
    /// UART pins to the UART, and puts both LEDs under software control,
    /// driven low.
    pub fn init(&mut self) -> (r: Result<(), &'static str>)
        requires
            old(self).wf(),
            old(self)@.is_reset(),
        ensures
            final(self).wf(),
            r is Ok,
            final(self)@.ctrl[GPIO_UART_TX as int] == spec_function_code(GpioFunction::Uart),
            final(self)@.ctrl[GPIO_UART_RX as int] == spec_function_code(GpioFunction::Uart),
            final(self)@.ctrl[GPIO_LED_ACT as int] == spec_function_code(GpioFunction::Sio),
            final(self)@.ctrl[GPIO_LED_PWR as int] == spec_function_code(GpioFunction::Sio),
            final(self)@.sio_oe == (spec_pin_mask(GPIO_LED_ACT) | spec_pin_mask(GPIO_LED_PWR)),
            final(self)@.sio_out == 0,
            final(self)@.sio_in == 0,
    {
        // The status register of pin 0 must answer: all ones means the
        // block is not mapped.
        if !self.test_gpio_access() {
            return Err("GPIO registers not accessible");
        }
        self.setup_uart_pins();
        self.setup_led_pins();
        proof {
            assert((0u32 & !0x1Fu32) | (2u32 & 0x1Fu32) == 2u32) by (bit_vector);
            assert((0u32 & !0x1Fu32) | (5u32 & 0x1Fu32) == 5u32) by (bit_vector);
            assert(((0u32 | (1u32 << (29u32 % 32))) | (1u32 << (31u32 % 32))) == ((1u32 << (29u32
                % 32)) | (1u32 << (31u32 % 32)))) by (bit_vector);
            assert(((0u32 & !(1u32 << (29u32 % 32))) & !(1u32 << (31u32 % 32))) == 0u32)
                by (bit_vector);
        }
        Ok(())
    }

    /// Whether the register block answers reads at all.
    fn test_gpio_access(&self) -> (r: bool)
        requires
            self.wf(),
        ensures
            r == (self@.status[0] != 0xFFFFFFFF),
    {
        let status = self.status[0];
        status != 0xFFFFFFFF
    }

    /// Routes the UART pins to the UART function.
    fn setup_uart_pins(&mut self)
        requires
            old(self).wf(),
        ensures
            final(self).wf(),
            final(self)@ == (GpioView {
                ctrl: old(self)@.ctrl.update(
                    GPIO_UART_TX as int,
                    spec_funcsel(old(self)@.ctrl[GPIO_UART_TX as int], GpioFunction::Uart),
                ).update(
                    GPIO_UART_RX as int,
                    spec_funcsel(old(self)@.ctrl[GPIO_UART_RX as int], GpioFunction::Uart),
                ),
                ..old(self)@
            }),
    {
        self.set_function(GPIO_UART_TX, GpioFunction::Uart);
        self.set_function(GPIO_UART_RX, GpioFunction::Uart);
        proof {
            assert(final(self)@ =~= (GpioView {
                ctrl: old(self)@.ctrl.update(
                    GPIO_UART_TX as int,
                    spec_funcsel(old(self)@.ctrl[GPIO_UART_TX as int], GpioFunction::Uart),
                ).update(
                    GPIO_UART_RX as int,
                    spec_funcsel(old(self)@.ctrl[GPIO_UART_RX as int], GpioFunction::Uart),
                ),
                ..old(self)@
            }));
        }
    }

    /// Puts both LEDs under software control, set as outputs, driven low.
    fn setup_led_pins(&mut self)
        requires
            old(self).wf(),
        ensures
            final(self).wf(),
            final(self)@.ctrl == old(self)@.ctrl.update(
                GPIO_LED_ACT as int,
                spec_funcsel(old(self)@.ctrl[GPIO_LED_ACT as int], GpioFunction::Sio),
            ).update(
                GPIO_LED_PWR as int,
                spec_funcsel(old(self)@.ctrl[GPIO_LED_PWR as int], GpioFunction::Sio),
            ),
            final(self)@.sio_oe == ((old(self)@.sio_oe | spec_pin_mask(GPIO_LED_ACT))
                | spec_pin_mask(GPIO_LED_PWR)),
            final(self)@.sio_out == ((old(self)@.sio_out & !spec_pin_mask(GPIO_LED_ACT))
                & !spec_pin_mask(GPIO_LED_PWR)),
            final(self)@.status == old(self)@.status,
            final(self)@.sio_in == old(self)@.sio_in,
    {
        self.set_function(GPIO_LED_ACT, GpioFunction::Sio);
        self.set_function(GPIO_LED_PWR, GpioFunction::Sio);
        self.set_direction(GPIO_LED_ACT, GpioDirection::Output);
        self.set_direction(GPIO_LED_PWR, GpioDirection::Output);
        self.set_level(GPIO_LED_ACT, GpioLevel::Low);
        self.set_level(GPIO_LED_PWR, GpioLevel::Low);
    }

    /// Selects a pin's function in its control register; an out-of-range
    /// pin is ignored.
    pub fn set_function(&mut self, pin: u32, function: GpioFunction)
        requires
            old(self).wf(),
        ensures
            final(self).wf(),
            pin < GPIO_PIN_COUNT ==> final(self)@ == (GpioView {
                ctrl: old(self)@.ctrl.update(
                    pin as int,
                    spec_funcsel(old(self)@.ctrl[pin as int], function),
                ),
                ..old(self)@
            }),
            pin >= GPIO_PIN_COUNT ==> final(self)@ == old(self)@,
    {
        if pin >= GPIO_PIN_COUNT {
            return;
        }
        let mut ctrl = self.ctrl[pin as usize];
        ctrl = ctrl & !GPIO_CTRL_FUNCSEL_MASK;
        ctrl = ctrl | (function.code() & GPIO_CTRL_FUNCSEL_MASK);
        self.ctrl[pin as usize] = ctrl;
        proof {
            assert(final(self)@ =~= (GpioView {
                ctrl: old(self)@.ctrl.update(
                    pin as int,
                    spec_funcsel(old(self)@.ctrl[pin as int], function),
                ),
                ..old(self)@
            }));
        }
    }

    /// Drives a pin's output-enable bit through the set/clear port
    /// registers; an out-of-range pin is ignored.
    pub fn set_direction(&mut self, pin: u32, direction: GpioDirection)
        requires
            old(self).wf(),
        ensures
            final(self).wf(),
            pin < GPIO_PIN_COUNT && direction == GpioDirection::Output ==> final(self)@ == (GpioView {
                sio_oe: (old(self)@.sio_oe | spec_pin_mask(pin)),
                ..old(self)@
            }),
            pin < GPIO_PIN_COUNT && direction == GpioDirection::Input ==> final(self)@ == (GpioView {
                sio_oe: (old(self)@.sio_oe & !spec_pin_mask(pin)),
                ..old(self)@
            }),
            pin >= GPIO_PIN_COUNT ==> final(self)@ == old(self)@,
    {
        if pin >= GPIO_PIN_COUNT {
            return;
        }
        let bit_mask = 1u32 << (pin % 32);
        match direction {
            GpioDirection::Output => {
                self.sio_oe = self.sio_oe | bit_mask;
            },
            GpioDirection::Input => {
                self.sio_oe = self.sio_oe & !bit_mask;
            },
        }
    }

    /// Drives a pin's output bit through the set/clear port registers; an
    /// out-of-range pin is ignored.
    pub fn set_level(&mut self, pin: u32, level: GpioLevel)
        requires
            old(self).wf(),
        ensures
            final(self).wf(),
            pin < GPIO_PIN_COUNT && level == GpioLevel::High ==> final(self)@ == (GpioView {
                sio_out: (old(self)@.sio_out | spec_pin_mask(pin)),
                ..old(self)@
            }),
            pin < GPIO_PIN_COUNT && level == GpioLevel::Low ==> final(self)@ == (GpioView {
                sio_out: (old(self)@.sio_out & !spec_pin_mask(pin)),
                ..old(self)@
            }),
            pin >= GPIO_PIN_COUNT ==> final(self)@ == old(self)@,
    {
        if pin >= GPIO_PIN_COUNT {
            return;
        }
        let bit_mask = 1u32 << (pin % 32);
        match level {
            GpioLevel::High => {
                self.sio_out = self.sio_out | bit_mask;
            },
            GpioLevel::Low => {
                self.sio_out = self.sio_out & !bit_mask;
            },
        }
    }

    /// Reads a pin's level off the input port; an out-of-range pin reads
    /// low.
    pub fn get_level(&self, pin: u32) -> (r: GpioLevel)
        requires
            self.wf(),
        ensures
            pin < GPIO_PIN_COUNT ==> r == (if self@.sio_in & spec_pin_mask(pin) != 0 {
                GpioLevel::High
            } else {
                GpioLevel::Low
            }),
            pin >= GPIO_PIN_COUNT ==> r == GpioLevel::Low,
    {
        if pin >= GPIO_PIN_COUNT {
            return GpioLevel::Low;
        }
        let input_reg = self.sio_in;
        if (input_reg & (1u32 << (pin % 32))) != 0 {
            GpioLevel::High
        } else {
            GpioLevel::Low
        }
    }

    /// Flips a pin's output bit through the xor port register; an
    /// out-of-range pin is ignored.
    pub fn toggle_pin(&mut self, pin: u32)
        requires
            old(self).wf(),
        ensures
            final(self).wf(),
            pin < GPIO_PIN_COUNT ==> final(self)@ == (GpioView {
                sio_out: (old(self)@.sio_out ^ spec_pin_mask(pin)),
                ..old(self)@
            }),
            pin >= GPIO_PIN_COUNT ==> final(self)@ == old(self)@,
    {
        if pin >= GPIO_PIN_COUNT {
            return;
        }
        let bit_mask = 1u32 << (pin % 32);
        self.sio_out = self.sio_out ^ bit_mask;
    }

    /// Drives the activity LED.
    pub fn set_activity_led(&mut self, on: bool)
        requires
            old(self).wf(),
        ensures
            final(self).wf(),
            on ==> final(self)@ == (GpioView {
                sio_out: (old(self)@.sio_out | spec_pin_mask(GPIO_LED_ACT)),
                ..old(self)@
            }),
            !on ==> final(self)@ == (GpioView {
                sio_out: (old(self)@.sio_out & !spec_pin_mask(GPIO_LED_ACT)),
                ..old(self)@
            }),
    {
        self.set_level(GPIO_LED_ACT, if on {
            GpioLevel::High
        } else {
            GpioLevel::Low
        });
    }

    /// Drives the power LED.
    pub fn set_power_led(&mut self, on: bool)
        requires
            old(self).wf(),
        ensures
            final(self).wf(),
            on ==> final(self)@ == (GpioView {
                sio_out: (old(self)@.sio_out | spec_pin_mask(GPIO_LED_PWR)),
                ..old(self)@
            }),
            !on ==> final(self)@ == (GpioView {
                sio_out: (old(self)@.sio_out & !spec_pin_mask(GPIO_LED_PWR)),
                ..old(self)@
            }),
    {
        self.set_level(GPIO_LED_PWR, if on {
            GpioLevel::High
        } else {
            GpioLevel::Low
        });
    }

    /// Flips the activity LED.
    pub fn blink_activity_led(&mut self)
        requires
            old(self).wf(),
        ensures
            final(self).wf(),
            final(self)@ == (GpioView {
                sio_out: (old(self)@.sio_out ^ spec_pin_mask(GPIO_LED_ACT)),
                ..old(self)@
            }),
    {
        self.toggle_pin(GPIO_LED_ACT);
    }

    /// Flips the power LED.
    pub fn blink_power_led(&mut self)
        requires
            old(self).wf(),
        ensures
            final(self).wf(),
            final(self)@ == (GpioView {
                sio_out: (old(self)@.sio_out ^ spec_pin_mask(GPIO_LED_PWR)),
                ..old(self)@
            }),
    {
        self.toggle_pin(GPIO_LED_PWR);
    }

    /// A pin's status register; an out-of-range pin reads 0.
    pub fn get_pin_status(&self, pin: u32) -> (r: u32)
        requires
            self.wf(),
        ensures
            pin < GPIO_PIN_COUNT ==> r == self@.status[pin as int],
            pin >= GPIO_PIN_COUNT ==> r == 0,
    {
        if pin >= GPIO_PIN_COUNT {
            return 0;
        }
        self.status[pin as usize]
    }

    /// A pin's control register; an out-of-range pin reads 0.
    pub fn get_pin_control(&self, pin: u32) -> (r: u32)
        requires
            self.wf(),
        ensures
            pin < GPIO_PIN_COUNT ==> r == self@.ctrl[pin as int],
            pin >= GPIO_PIN_COUNT ==> r == 0,
    {
        if pin >= GPIO_PIN_COUNT {
            return 0;
        }
        self.ctrl[pin as usize]
    }

    /// The boot-time self-exercise: flashes each LED for a tenth of a
    /// second and reads the activity pin's registers back (displaying them
    /// is the caller's concern).  Answers whether the block responded,
    /// which the modeled block always does.
    pub fn test_gpio_functionality(&mut self, timer: &mut Timer) -> (r: bool)
        requires
            old(self).wf(),
        ensures
            final(self).wf(),
            r,
            final(self)@ == (GpioView {
                sio_out: ((((old(self)@.sio_out | spec_pin_mask(GPIO_LED_ACT)) & !spec_pin_mask(
                    GPIO_LED_ACT,
                )) | spec_pin_mask(GPIO_LED_PWR)) & !spec_pin_mask(GPIO_LED_PWR)),
                ..old(self)@
            }),
            final(timer)@ == vstd::wrapping::u64_specs::wrapping_add(
                (vstd::wrapping::u64_specs::wrapping_add(old(timer)@, 100000)),
                100000,
            ),
    {
        self.set_activity_led(true);
        timer.delay_ms(100);
        self.set_activity_led(false);

        self.set_power_led(true);
        timer.delay_ms(100);
        self.set_power_led(false);

        let _status = self.get_pin_status(GPIO_LED_ACT);
        let _ctrl = self.get_pin_control(GPIO_LED_ACT);
        proof {
            assert(vstd::wrapping::u32_specs::wrapping_mul(100, 1000) == 100000);
        }
        true
    }

    /// The output port word, as the pads see it.
    pub fn output_register(&self) -> (r: u32)
        ensures
            r == self@.sio_out,
    {
        self.sio_out
    }

    /// The output-enable port word.
    pub fn direction_register(&self) -> (r: u32)
        ensures
            r == self@.sio_oe,
    {
        self.sio_oe
    }

    /// Models the pads driving the input port.
    pub fn drive_inputs(&mut self, value: u32)
        requires
            old(self).wf(),
        ensures
            final(self).wf(),
            final(self)@ == (GpioView { sio_in: value, ..old(self)@ }),
    {
        self.sio_in = value;
    }
}

/// Runs the self-exercise on a GPIO block.
pub fn test_gpio(gpio: &mut GpioController, timer: &mut Timer) -> (r: bool)
    requires
        old(gpio).wf(),
    ensures
        final(gpio).wf(),
        r,
        final(gpio)@ == (GpioView {
            sio_out: ((((old(gpio)@.sio_out | spec_pin_mask(GPIO_LED_ACT)) & !spec_pin_mask(
                GPIO_LED_ACT,
            )) | spec_pin_mask(GPIO_LED_PWR)) & !spec_pin_mask(GPIO_LED_PWR)),
            ..old(gpio)@
        }),
        final(timer)@ == vstd::wrapping::u64_specs::wrapping_add(
            (vstd::wrapping::u64_specs::wrapping_add(old(timer)@, 100000)),
            100000,
        ),
{
    gpio.test_gpio_functionality(timer)
}

/// A pin's control word with its function-select field overwritten.
pub open spec fn spec_funcsel(ctrl: u32, function: GpioFunction) -> u32 {
    (ctrl & !GPIO_CTRL_FUNCSEL_MASK) | (spec_function_code(function) & GPIO_CTRL_FUNCSEL_MASK)
}

/// A register bank of the given length, all zero.
fn reset_bank(n: usize) -> (r: Vec<u32>)
    ensures
        r@.len() == n,
        forall|w: int| 0 <= w < n ==> r@[w] == 0,
{
    let mut v: Vec<u32> = Vec::new();
    let mut i: usize = 0;
    while i < n
        invariant
            i <= n,
            v@.len() == i,
            forall|w: int| 0 <= w < i ==> v@[w] == 0,
        decreases n - i,
    {
        v.push(0);
        i = i + 1;
    }
    v
}

} // verus!
