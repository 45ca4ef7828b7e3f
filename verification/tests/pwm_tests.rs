//! Tests of the channel/pin identity mapping, the configuration snapshot,
//! the channel controller and the interrupt dispatcher, against a modeled
//! peripheral with a 125 MHz system clock.

use std::cell::RefCell;

use rp2040_pwm::channel::{ChannelNumber, ChannelPin, DivMode};
use rp2040_pwm::config::PwmChannelConfiguration;
use rp2040_pwm::planner::{PwmError, MAX_DUTY_CYCLE};
use rp2040_pwm::pwm::{Interrupt, Pwm};

const SYSTEM_CLOCK_HZ: usize = 125_000_000;

fn running_pwm() -> Pwm {
    let mut pwm = Pwm::new();
    pwm.set_clocks(SYSTEM_CLOCK_HZ);
    pwm
}

// Channel/pin identity mapping.

#[test]
fn test_channel_number() {
    assert_eq!(ChannelNumber::from_pin(0), ChannelNumber::Ch0);
    assert_eq!(ChannelNumber::from_pin(3), ChannelNumber::Ch1);
    assert_eq!(ChannelNumber::from_pin(14), ChannelNumber::Ch7);
    assert_eq!(ChannelNumber::from_pin(28), ChannelNumber::Ch6);
}

#[test]
fn test_channel_pin() {
    assert_eq!(ChannelPin::from_pin(4), ChannelPin::A);
    assert_eq!(ChannelPin::from_pin(5), ChannelPin::B);
}

#[test]
fn test_pin_aliasing() {
    // Pins repeat with period 16: pin p and pin p + 16 drive the identical
    // (channel, sub-pin) pair.
    for pin in 0..16 {
        assert_eq!(ChannelNumber::from_pin(pin), ChannelNumber::from_pin(pin + 16));
        assert_eq!(ChannelPin::from_pin(pin), ChannelPin::from_pin(pin + 16));
    }
}

#[test]
fn test_channel_index_roundtrip() {
    for index in 0..8 {
        assert_eq!(ChannelNumber::from_index(index).index(), index);
    }
}

// Configuration snapshot.

#[test]
fn test_default_config() {
    let config = PwmChannelConfiguration::default_config();
    assert!(!config.en);
    assert!(!config.ph_correct);
    assert!(!config.a_inv);
    assert!(!config.b_inv);
    assert!(matches!(config.divmode, DivMode::FreeRunning));
    assert_eq!(config.div_int, 1);
    assert_eq!(config.div_frac, 0);
    assert_eq!(config.cc_a, 0);
    assert_eq!(config.cc_b, 0);
    assert_eq!(config.top, u16::MAX);
}

#[test]
fn test_config_setters() {
    let mut config = PwmChannelConfiguration::default_config();
    config.set_enabled(true);
    config.set_ph_correct(true);
    config.set_invert_polarity(true, false);
    config.set_div_mode(DivMode::Rising);
    config.set_divider_int_frac(123, 4);
    config.set_compare_values_a_and_b(2023, 1);
    config.set_top(12345);
    assert!(config.en);
    assert!(config.ph_correct);
    assert!(config.a_inv);
    assert!(!config.b_inv);
    assert!(matches!(config.divmode, DivMode::Rising));
    assert_eq!(config.div_int, 123);
    assert_eq!(config.div_frac, 4);
    assert_eq!(config.cc_a, 2023);
    assert_eq!(config.cc_b, 1);
    assert_eq!(config.top, 12345);
}

#[test]
fn test_config_rejects_bad_divider() {
    let mut config = PwmChannelConfiguration::default_config();
    config.set_divider_int_frac(123, 4);
    // Integer part 0 is illegal: the call is ignored.
    config.set_divider_int_frac(0, 7);
    assert_eq!(config.div_int, 123);
    assert_eq!(config.div_frac, 4);
    // Fractional part above 15 is illegal: the call is ignored.
    config.set_divider_int_frac(9, 16);
    assert_eq!(config.div_int, 123);
    assert_eq!(config.div_frac, 4);
}

// Channel controller.

#[test]
fn test_power_on_state() {
    let pwm = Pwm::new();
    for index in 0..8 {
        let regs = pwm.channel_registers(ChannelNumber::from_index(index));
        assert!(!regs.enabled());
        assert!(!regs.ph_correct());
        assert!(!regs.invert_a());
        assert!(!regs.invert_b());
        assert!(matches!(regs.div_mode(), DivMode::FreeRunning));
        assert_eq!(regs.divider_int(), 1);
        assert_eq!(regs.divider_frac(), 0);
        assert_eq!(regs.compare_a(), 0);
        assert_eq!(regs.compare_b(), 0);
        assert_eq!(regs.counter(), 0);
        assert_eq!(regs.top_value(), u16::MAX);
    }
}

#[test]
fn test_channel_setters() {
    let mut pwm = Pwm::new();
    let channel = ChannelNumber::Ch3;

    pwm.set_enabled(channel, true);
    assert!(pwm.channel_registers(channel).enabled());
    pwm.set_enabled(channel, false);
    assert!(!pwm.channel_registers(channel).enabled());

    pwm.set_ph_correct(channel, true);
    assert!(pwm.channel_registers(channel).ph_correct());
    pwm.set_ph_correct(channel, false);
    assert!(!pwm.channel_registers(channel).ph_correct());

    pwm.set_invert_polarity(channel, true, true);
    assert!(pwm.channel_registers(channel).invert_a());
    assert!(pwm.channel_registers(channel).invert_b());
    pwm.set_invert_polarity(channel, true, false);
    assert!(pwm.channel_registers(channel).invert_a());
    assert!(!pwm.channel_registers(channel).invert_b());
    pwm.set_invert_polarity(channel, false, false);
    assert!(!pwm.channel_registers(channel).invert_a());
    assert!(!pwm.channel_registers(channel).invert_b());

    pwm.set_div_mode(channel, DivMode::High);
    assert!(matches!(pwm.channel_registers(channel).div_mode(), DivMode::High));
    pwm.set_div_mode(channel, DivMode::Falling);
    assert!(matches!(pwm.channel_registers(channel).div_mode(), DivMode::Falling));

    pwm.set_divider_int_frac(channel, 123, 4);
    assert_eq!(pwm.channel_registers(channel).divider_int(), 123);
    assert_eq!(pwm.channel_registers(channel).divider_frac(), 4);

    pwm.set_compare_value_a(channel, 2022);
    assert_eq!(pwm.channel_registers(channel).compare_a(), 2022);
    pwm.set_compare_value_b(channel, 12);
    assert_eq!(pwm.channel_registers(channel).compare_b(), 12);
    pwm.set_compare_values_a_and_b(channel, 2023, 1);
    assert_eq!(pwm.channel_registers(channel).compare_a(), 2023);
    assert_eq!(pwm.channel_registers(channel).compare_b(), 1);

    pwm.set_top(channel, 12345);
    assert_eq!(pwm.channel_registers(channel).top_value(), 12345);

    pwm.set_counter(channel, 1);
    assert_eq!(pwm.get_counter(channel), 1);
}

#[test]
fn test_setters_reject_bad_divider() {
    let mut pwm = Pwm::new();
    let channel = ChannelNumber::Ch1;
    pwm.set_divider_int_frac(channel, 7, 3);
    pwm.set_divider_int_frac(channel, 0, 1);
    assert_eq!(pwm.channel_registers(channel).divider_int(), 7);
    assert_eq!(pwm.channel_registers(channel).divider_frac(), 3);
    pwm.set_divider_int_frac(channel, 2, 16);
    assert_eq!(pwm.channel_registers(channel).divider_int(), 7);
    assert_eq!(pwm.channel_registers(channel).divider_frac(), 3);
}

#[test]
fn test_set_mask_enabled() {
    let mut pwm = Pwm::new();
    pwm.set_enabled(ChannelNumber::Ch7, true);
    pwm.set_mask_enabled(0b0000_0101);
    assert!(pwm.channel_registers(ChannelNumber::Ch0).enabled());
    assert!(!pwm.channel_registers(ChannelNumber::Ch1).enabled());
    assert!(pwm.channel_registers(ChannelNumber::Ch2).enabled());
    assert!(!pwm.channel_registers(ChannelNumber::Ch3).enabled());
    // A channel enabled beforehand keeps its enable state.
    assert!(pwm.channel_registers(ChannelNumber::Ch7).enabled());
}

#[test]
fn test_configure_channel() {
    let mut pwm = Pwm::new();
    let channel = ChannelNumber::Ch5;
    let mut config = PwmChannelConfiguration::default_config();
    config.set_enabled(true);
    config.set_ph_correct(true);
    config.set_invert_polarity(false, true);
    config.set_div_mode(DivMode::Falling);
    config.set_divider_int_frac(9, 11);
    config.set_compare_values_a_and_b(100, 200);
    config.set_top(4000);
    pwm.configure_channel(channel, &config);
    let regs = pwm.channel_registers(channel);
    assert!(regs.enabled());
    assert!(regs.ph_correct());
    assert!(!regs.invert_a());
    assert!(regs.invert_b());
    assert!(matches!(regs.div_mode(), DivMode::Falling));
    assert_eq!(regs.divider_int(), 9);
    assert_eq!(regs.divider_frac(), 11);
    assert_eq!(regs.compare_a(), 100);
    assert_eq!(regs.compare_b(), 200);
    assert_eq!(regs.top_value(), 4000);
}

#[test]
fn test_init_restores_defaults() {
    let mut pwm = Pwm::new();
    let channel = ChannelNumber::Ch2;
    pwm.set_enabled(channel, true);
    pwm.set_divider_int_frac(channel, 9, 11);
    pwm.set_compare_values_a_and_b(channel, 100, 200);
    pwm.set_top(channel, 4000);
    pwm.set_counter(channel, 77);
    pwm.init();
    let regs = pwm.channel_registers(channel);
    assert!(!regs.enabled());
    assert!(!regs.ph_correct());
    assert!(matches!(regs.div_mode(), DivMode::FreeRunning));
    assert_eq!(regs.divider_int(), 1);
    assert_eq!(regs.divider_frac(), 0);
    assert_eq!(regs.compare_a(), 0);
    assert_eq!(regs.compare_b(), 0);
    assert_eq!(regs.top_value(), u16::MAX);
    assert_eq!(regs.counter(), 0);
}

#[test]
fn test_maximum_frequency_and_duty() {
    let pwm = running_pwm();
    assert_eq!(pwm.get_maximum_frequency_hz(), SYSTEM_CLOCK_HZ);
    assert_eq!(pwm.get_maximum_duty_cycle(), MAX_DUTY_CYCLE);
}

// Phase handshakes.

#[test]
fn test_advance_count() {
    let mut pwm = Pwm::new();
    let channel = ChannelNumber::Ch4;
    pwm.set_top(channel, 12345);
    pwm.set_counter(channel, 1);
    // The counter must run at less than full speed for the advance
    // handshake to complete.
    pwm.set_divider_int_frac(channel, 2, 0);
    pwm.set_enabled(channel, true);
    pwm.advance_count(channel);
    assert_eq!(pwm.get_counter(channel), 2);
}

#[test]
fn test_advance_wraps_and_latches_interrupt() {
    let mut pwm = Pwm::new();
    let channel = ChannelNumber::Ch4;
    pwm.set_top(channel, 12345);
    pwm.set_counter(channel, 12345);
    pwm.set_divider_int_frac(channel, 2, 0);
    pwm.set_enabled(channel, true);
    pwm.enable_interrupt(channel);
    assert!(!pwm.get_interrupt_status(channel));
    pwm.advance_count(channel);
    assert_eq!(pwm.get_counter(channel), 0);
    // The wrap latched the raw interrupt; with the interrupt enabled the
    // status bit shows.
    assert!(pwm.get_interrupt_status(channel));
}

#[test]
fn test_retard_count() {
    let mut pwm = Pwm::new();
    let channel = ChannelNumber::Ch6;
    pwm.set_top(channel, 100);
    pwm.set_counter(channel, 5);
    pwm.set_enabled(channel, true);
    pwm.retard_count(channel);
    assert_eq!(pwm.get_counter(channel), 4);
    pwm.set_counter(channel, 0);
    pwm.retard_count(channel);
    assert_eq!(pwm.get_counter(channel), 100);
}

// Start/stop through the frequency/duty contract.

#[test]
fn test_start_quarter_clock() {
    // Pin 4 drives channel 2, sub-pin A.
    let mut pwm = running_pwm();
    assert_eq!(pwm.start(4, SYSTEM_CLOCK_HZ / 4, 0), Ok(()));
    let regs = pwm.channel_registers(ChannelNumber::Ch2);
    assert!(regs.enabled());
    assert_eq!(regs.top_value(), 3);
    assert_eq!(regs.divider_int(), 1);
    assert_eq!(regs.divider_frac(), 0);
    assert_eq!(regs.compare_a(), 0);
}

#[test]
fn test_start_three_quarters_duty() {
    let mut pwm = running_pwm();
    assert_eq!(pwm.start(4, SYSTEM_CLOCK_HZ / 4, MAX_DUTY_CYCLE / 4 * 3), Ok(()));
    let regs = pwm.channel_registers(ChannelNumber::Ch2);
    assert_eq!(regs.top_value(), 3);
    assert_eq!(regs.compare_a(), 3);
}

#[test]
fn test_start_full_duty() {
    let mut pwm = running_pwm();
    assert_eq!(pwm.start(4, SYSTEM_CLOCK_HZ / 4, MAX_DUTY_CYCLE), Ok(()));
    let regs = pwm.channel_registers(ChannelNumber::Ch2);
    // Glitch-free 100% duty: compare = top + 1.
    assert_eq!(regs.top_value(), 3);
    assert_eq!(regs.compare_a(), 4);
}

#[test]
fn test_start_full_duty_at_threshold_fails() {
    let mut pwm = running_pwm();
    assert_eq!(pwm.start(4, SYSTEM_CLOCK_HZ / 4, MAX_DUTY_CYCLE), Ok(()));
    // At the threshold frequency top is maximal, so exact full-scale duty
    // is unrepresentable; the failed start leaves every register as it was.
    assert_eq!(
        pwm.start(4, SYSTEM_CLOCK_HZ / MAX_DUTY_CYCLE, MAX_DUTY_CYCLE),
        Err(PwmError::UnrepresentableFullDuty)
    );
    let regs = pwm.channel_registers(ChannelNumber::Ch2);
    assert!(regs.enabled());
    assert_eq!(regs.top_value(), 3);
    assert_eq!(regs.compare_a(), 4);
}

#[test]
fn test_start_too_low_frequency_fails() {
    let mut pwm = running_pwm();
    assert_eq!(
        pwm.start(4, SYSTEM_CLOCK_HZ / MAX_DUTY_CYCLE / 256, 100),
        Err(PwmError::UnsupportedDivider)
    );
    assert!(!pwm.channel_registers(ChannelNumber::Ch2).enabled());
}

#[test]
fn test_start_sub_pin_b() {
    // Pin 5 drives channel 2, sub-pin B: only compare B is programmed.
    let mut pwm = running_pwm();
    assert_eq!(pwm.start(5, SYSTEM_CLOCK_HZ / 4, MAX_DUTY_CYCLE / 2), Ok(()));
    let regs = pwm.channel_registers(ChannelNumber::Ch2);
    assert_eq!(regs.compare_a(), 0);
    assert_eq!(regs.compare_b(), 2);
}

#[test]
fn test_stop_is_idempotent() {
    let mut pwm = running_pwm();
    assert_eq!(pwm.start(4, SYSTEM_CLOCK_HZ / 4, MAX_DUTY_CYCLE / 2), Ok(()));
    assert_eq!(pwm.stop(4), Ok(()));
    let once = pwm.channel_registers(ChannelNumber::Ch2);
    assert!(!once.enabled());
    assert_eq!(pwm.stop(4), Ok(()));
    let twice = pwm.channel_registers(ChannelNumber::Ch2);
    assert_eq!(once, twice);
}

#[test]
fn test_stop_stops_both_sub_pins() {
    let mut pwm = running_pwm();
    assert_eq!(pwm.start(4, SYSTEM_CLOCK_HZ / 4, MAX_DUTY_CYCLE / 2), Ok(()));
    assert_eq!(pwm.start(5, SYSTEM_CLOCK_HZ / 4, MAX_DUTY_CYCLE / 4), Ok(()));
    // Stopping through pin 5 disables the whole channel: pin 4 stops too,
    // though both compare values stay programmed.
    assert_eq!(pwm.stop(5), Ok(()));
    let regs = pwm.channel_registers(ChannelNumber::Ch2);
    assert!(!regs.enabled());
    assert_eq!(regs.compare_a(), 2);
    assert_eq!(regs.compare_b(), 1);
}

#[test]
fn test_pwm_pin_handle() {
    let mut pwm = running_pwm();
    let pin = pwm.gpio_to_pwm_pin(24);
    assert_eq!(pin.get_channel_number(), ChannelNumber::Ch4);
    assert_eq!(pin.get_channel_pin(), ChannelPin::A);
    assert_eq!(pin.start(&mut pwm, SYSTEM_CLOCK_HZ / 4, MAX_DUTY_CYCLE / 4 * 3), Ok(()));
    assert_eq!(pwm.channel_registers(ChannelNumber::Ch4).compare_a(), 3);
    assert_eq!(pin.stop(&mut pwm), Ok(()));
    assert!(!pwm.channel_registers(ChannelNumber::Ch4).enabled());
}

// Interrupt dispatcher.

struct Recorder {
    fired_channels: RefCell<Vec<ChannelNumber>>,
}

impl Recorder {
    fn new() -> Recorder {
        Recorder { fired_channels: RefCell::new(Vec::new()) }
    }
}

impl Interrupt for Recorder {
    fn fired(&self, channel_number: ChannelNumber) {
        self.fired_channels.borrow_mut().push(channel_number);
    }
}

#[test]
fn test_force_then_handle_roundtrip() {
    let mut pwm = Pwm::new();
    let handler = Recorder::new();
    pwm.force_interrupt(ChannelNumber::Ch2);
    assert!(pwm.get_interrupt_status(ChannelNumber::Ch2));
    let fired = pwm.service_interrupt(&handler);
    // Exactly one notification, for the forced channel, and its status
    // bit is clear afterwards.
    assert_eq!(fired, vec![ChannelNumber::Ch2]);
    assert_eq!(*handler.fired_channels.borrow(), vec![ChannelNumber::Ch2]);
    assert!(!pwm.get_interrupt_status(ChannelNumber::Ch2));
}

#[test]
fn test_handle_delivers_in_channel_order() {
    let mut pwm = Pwm::new();
    let handler = Recorder::new();
    pwm.force_interrupt(ChannelNumber::Ch5);
    pwm.force_interrupt(ChannelNumber::Ch1);
    let fired = pwm.service_interrupt(&handler);
    // Both pending channels are handled in one batch, in ascending
    // channel-index order, not in forcing order.
    assert_eq!(fired, vec![ChannelNumber::Ch1, ChannelNumber::Ch5]);
    assert_eq!(
        *handler.fired_channels.borrow(),
        vec![ChannelNumber::Ch1, ChannelNumber::Ch5]
    );
    assert!(!pwm.get_interrupt_status(ChannelNumber::Ch1));
    assert!(!pwm.get_interrupt_status(ChannelNumber::Ch5));
}

#[test]
fn test_handle_without_handler_still_clears() {
    let mut pwm = Pwm::new();
    pwm.force_interrupt(ChannelNumber::Ch6);
    let fired = pwm.handle_interrupt();
    assert_eq!(fired, vec![ChannelNumber::Ch6]);
    assert!(!pwm.get_interrupt_status(ChannelNumber::Ch6));
}

#[test]
fn test_handle_with_nothing_pending() {
    let mut pwm = Pwm::new();
    let fired = pwm.handle_interrupt();
    assert!(fired.is_empty());
}

#[test]
fn test_enable_disable_interrupt() {
    let mut pwm = Pwm::new();
    let channel = ChannelNumber::Ch3;
    // Latch a real wrap event with the interrupt disabled: no status shows.
    pwm.set_top(channel, 10);
    pwm.set_counter(channel, 10);
    pwm.set_divider_int_frac(channel, 2, 0);
    pwm.set_enabled(channel, true);
    pwm.advance_count(channel);
    assert!(!pwm.get_interrupt_status(channel));
    // Enabling lets the latched event through; disabling masks it again.
    pwm.enable_interrupt(channel);
    assert!(pwm.get_interrupt_status(channel));
    pwm.disable_interrupt(channel);
    assert!(!pwm.get_interrupt_status(channel));
}

#[test]
fn test_enable_mask_interrupt() {
    let mut pwm = Pwm::new();
    pwm.enable_mask_interrupt(0b0000_1000);
    // Latch a wrap event on channel 3, whose interrupt the mask enabled.
    let channel = ChannelNumber::Ch3;
    pwm.set_top(channel, 10);
    pwm.set_counter(channel, 10);
    pwm.set_divider_int_frac(channel, 2, 0);
    pwm.set_enabled(channel, true);
    pwm.advance_count(channel);
    assert!(pwm.get_interrupt_status(channel));
    // The mask write replaced the whole register: channel 0 stays off.
    pwm.force_interrupt(ChannelNumber::Ch0);
    assert!(pwm.get_interrupt_status(ChannelNumber::Ch0));
}

#[test]
fn test_handled_wrap_event_stays_clear() {
    let mut pwm = Pwm::new();
    let channel = ChannelNumber::Ch3;
    pwm.set_top(channel, 10);
    pwm.set_counter(channel, 10);
    pwm.set_divider_int_frac(channel, 2, 0);
    pwm.set_enabled(channel, true);
    pwm.enable_interrupt(channel);
    pwm.advance_count(channel);
    let fired = pwm.handle_interrupt();
    assert_eq!(fired, vec![channel]);
    // The latched bit was cleared, not merely masked: status stays clear.
    assert!(!pwm.get_interrupt_status(channel));
}
