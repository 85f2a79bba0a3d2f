use aw2013::command::Command;
use aw2013::led::{Current, Led};
use aw2013::registers::{
    mode_register, pwm_register, timing_register, DEFAULT_ADDRESS, LED_BREATHE_MODE_MASK,
    LED_FADE_IN_MASK, LED_FADE_OUT_MASK, LED_MODULE_ENABLE_MASK, LED_RESET_MASK,
    REG_GLOBAL_CONTROL, REG_LED_ENABLE, REG_LED_MODE_BASE, REG_LED_PWM_BASE, REG_RESET,
    REG_TIMING_BASE,
};
use aw2013::timing::{clamp, pack, Timing};

fn timing(delay: u8, rise: u8, hold: u8, fall: u8, off: u8, cycles: u8) -> Timing {
    Timing { delay, rise, hold, fall, off, cycles }
}

#[test]
fn led_ordinals_and_bits() {
    assert_eq!(Led::Led0.index(), 0);
    assert_eq!(Led::Led1.index(), 1);
    assert_eq!(Led::Led2.index(), 2);
    assert_eq!(Led::Led0.bit(), 0b001);
    assert_eq!(Led::Led1.bit(), 0b010);
    assert_eq!(Led::Led2.bit(), 0b100);
}

#[test]
fn current_limits_are_two_bit_fields() {
    assert_eq!(Current::Zero.bits(), 0);
    assert_eq!(Current::Five.bits(), 1);
    assert_eq!(Current::Ten.bits(), 2);
    assert_eq!(Current::Fifteen.bits(), 3);
}

#[test]
fn register_map_is_bit_exact() {
    assert_eq!(DEFAULT_ADDRESS, 0x45);
    assert_eq!(REG_RESET, 0x00);
    assert_eq!(REG_GLOBAL_CONTROL, 0x01);
    assert_eq!(REG_LED_ENABLE, 0x30);
    assert_eq!(REG_LED_MODE_BASE, 0x31);
    assert_eq!(REG_LED_PWM_BASE, 0x34);
    assert_eq!(REG_TIMING_BASE, 0x37);
    assert_eq!(LED_MODULE_ENABLE_MASK, 0x01);
    assert_eq!(LED_BREATHE_MODE_MASK, 0x10);
    assert_eq!(LED_FADE_IN_MASK, 0x20);
    assert_eq!(LED_FADE_OUT_MASK, 0x40);
    assert_eq!(LED_RESET_MASK, 0x55);
}

#[test]
fn per_channel_register_addresses() {
    assert_eq!(mode_register(Led::Led0), 0x31);
    assert_eq!(mode_register(Led::Led1), 0x32);
    assert_eq!(mode_register(Led::Led2), 0x33);
    assert_eq!(pwm_register(Led::Led0), 0x34);
    assert_eq!(pwm_register(Led::Led1), 0x35);
    assert_eq!(pwm_register(Led::Led2), 0x36);
    assert_eq!(timing_register(Led::Led0, 0), 0x37);
    assert_eq!(timing_register(Led::Led0, 1), 0x38);
    assert_eq!(timing_register(Led::Led0, 2), 0x39);
    assert_eq!(timing_register(Led::Led1, 0), 0x3A);
    assert_eq!(timing_register(Led::Led1, 1), 0x3B);
    assert_eq!(timing_register(Led::Led1, 2), 0x3C);
    assert_eq!(timing_register(Led::Led2, 0), 0x3D);
    assert_eq!(timing_register(Led::Led2, 1), 0x3E);
    assert_eq!(timing_register(Led::Led2, 2), 0x3F);
}

#[test]
fn clamp_limits_to_the_maximum() {
    assert_eq!(clamp(0, 7), 0);
    assert_eq!(clamp(7, 7), 7);
    assert_eq!(clamp(8, 7), 7);
    assert_eq!(clamp(255, 7), 7);
    assert_eq!(clamp(6, 5), 5);
    assert_eq!(clamp(20, 15), 15);
}

#[test]
fn clamping_is_idempotent_and_monotonic() {
    for max in [5u8, 7, 15] {
        let mut previous = 0u8;
        for value in 0..=255u8 {
            let once = clamp(value, max);
            assert_eq!(clamp(once, max), once);
            assert!(once <= max);
            assert!(previous <= once);
            previous = once;
        }
    }
}

#[test]
fn encoding_a_clamped_timing_equals_encoding_the_raw_one() {
    let samples = [0u8, 1, 4, 5, 6, 7, 8, 15, 16, 20, 128, 255];
    for &a in samples.iter() {
        for &b in samples.iter() {
            let raw = timing(a, b, a, b, a, b);
            let clamped = raw.clamp();
            assert_eq!(clamped.clamp(), clamped);
            assert_eq!(clamped.registers(), raw.registers());
            let other = timing(b, a, b, a, b, a);
            assert_eq!(other.clamp().registers(), other.registers());
        }
    }
}

#[test]
fn timing_clamp_uses_each_fields_own_maximum() {
    let clamped = timing(255, 255, 255, 255, 255, 255).clamp();
    assert_eq!(clamped, timing(7, 7, 5, 7, 7, 15));
    let kept = timing(7, 7, 5, 7, 7, 15).clamp();
    assert_eq!(kept, timing(7, 7, 5, 7, 7, 15));
    let small = timing(1, 2, 3, 4, 5, 6).clamp();
    assert_eq!(small, timing(1, 2, 3, 4, 5, 6));
}

#[test]
fn pack_puts_the_first_nibble_high() {
    assert_eq!(pack(0, 0), 0x00);
    assert_eq!(pack(7, 2), 0x72);
    assert_eq!(pack(0, 15), 0x0F);
    assert_eq!(pack(15, 15), 0xFF);
    assert_eq!(pack(3, 0), 0x30);
}

#[test]
fn timing_registers_clamp_rise_and_cycles() {
    let bytes = timing(0, 9, 2, 1, 1, 20).registers();
    assert_eq!(bytes, [0x72, 0x11, 0x0F]);
}

#[test]
fn timing_registers_pack_rise_hold_fall_off_delay_cycles() {
    assert_eq!(timing(1, 2, 3, 4, 5, 6).registers(), [0x23, 0x45, 0x16]);
    assert_eq!(timing(0, 0, 0, 0, 0, 0).registers(), [0x00, 0x00, 0x00]);
    assert_eq!(timing(255, 255, 255, 255, 255, 255).registers(), [0x75, 0x77, 0x7F]);
    assert_eq!(timing(0, 2, 2, 2, 1, 0).registers(), [0x22, 0x21, 0x00]);
    assert_eq!(timing(0, 0, 6, 0, 0, 0).registers(), [0x05, 0x00, 0x00]);
}

#[test]
fn command_register_and_read_need() {
    let write = Command::Write { register: 0x34, value: 9 };
    let set = Command::SetBits { register: 0x30, mask: 4 };
    let clear = Command::ClearBits { register: 0x30, mask: 4 };
    assert_eq!(write.register(), 0x34);
    assert_eq!(set.register(), 0x30);
    assert_eq!(clear.register(), 0x30);
    assert!(!write.reads_first());
    assert!(set.reads_first());
    assert!(clear.reads_first());
}

#[test]
fn command_value_after_changes_only_the_masked_bits() {
    let write = Command::Write { register: 0x34, value: 9 };
    let set = Command::SetBits { register: 0x30, mask: 0b100 };
    let clear = Command::ClearBits { register: 0x30, mask: 0b100 };
    assert_eq!(write.value_after(0), 9);
    assert_eq!(write.value_after(0xFF), 9);
    assert_eq!(set.value_after(0b001), 0b101);
    assert_eq!(set.value_after(0b101), 0b101);
    assert_eq!(clear.value_after(0b111), 0b011);
    assert_eq!(clear.value_after(0b011), 0b011);
    assert_eq!(clear.value_after(0xFF), 0xFB);
}
