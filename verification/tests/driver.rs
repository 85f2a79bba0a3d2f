use aw2013::{Aw2013, Command, Current, Led, Operation, Reply, Timing, Transfer};

/// A chip on a bus that may fail: 256 registers, a log of the transfers that
/// reached it, and the number of the transfer that fails, if any.
struct Chip {
    registers: [u8; 256],
    log: Vec<Transfer>,
    fault: Option<usize>,
    transfers: usize,
}

fn chip() -> Chip {
    Chip { registers: [0; 256], log: Vec::new(), fault: None, transfers: 0 }
}

fn chip_failing_at(fault: usize) -> Chip {
    Chip { registers: [0; 256], log: Vec::new(), fault: Some(fault), transfers: 0 }
}

/// Carries `operation` out on `chip`; returns whether it succeeded. A write
/// of 0x55 to register 0 resets the chip: every register goes to zero.
fn run(chip: &mut Chip, mut operation: Operation) -> bool {
    loop {
        let transfer = operation.pending();
        if transfer == Transfer::Finished {
            return !operation.has_failed();
        }
        let failing = chip.fault == Some(chip.transfers);
        chip.transfers += 1;
        if failing {
            operation.advance(Reply::Failed);
            continue;
        }
        chip.log.push(transfer);
        match transfer {
            Transfer::Write { device, register, value } => {
                assert_eq!(device, operation.device());
                assert_eq!(transfer.outgoing(), vec![register, value]);
                if register == 0x00 && value == 0x55 {
                    chip.registers = [0; 256];
                } else {
                    chip.registers[register as usize] = value;
                }
                operation.advance(Reply::Written);
            }
            Transfer::Read { device, register } => {
                assert_eq!(device, operation.device());
                assert_eq!(transfer.outgoing(), vec![register]);
                operation.advance(Reply::Read(chip.registers[register as usize]));
            }
            Transfer::Finished => unreachable!(),
        }
    }
}

fn write(register: u8, value: u8) -> Transfer {
    Transfer::Write { device: 0x45, register, value }
}

fn read(register: u8) -> Transfer {
    Transfer::Read { device: 0x45, register }
}

fn fives() -> Aw2013 {
    Aw2013::from_default_address([Current::Five, Current::Five, Current::Five])
}

fn mixed() -> Aw2013 {
    Aw2013::new(0x45, [Current::Five, Current::Ten, Current::Fifteen])
}

fn slow() -> Timing {
    Timing { delay: 1, rise: 2, hold: 3, fall: 4, off: 5, cycles: 6 }
}

#[test]
fn construction_issues_no_bus_traffic_and_keeps_the_address() {
    let driver = Aw2013::new(0x46, [Current::Zero, Current::Ten, Current::Fifteen]);
    assert_eq!(driver.reset().device(), 0x46);
    assert_eq!(fives().reset().device(), 0x45);
    assert_eq!(fives().set_static(Led::Led0, 1, None, None).device(), 0x45);
}

#[test]
fn reset_writes_the_unlock_pattern() {
    let operation = fives().reset();
    assert_eq!(operation.commands(), &vec![Command::Write { register: 0x00, value: 0x55 }]);
    let mut chip = chip();
    assert!(run(&mut chip, fives().reset()));
    assert_eq!(chip.log, vec![write(0x00, 0x55)]);
}

#[test]
fn enable_and_disable_write_the_module_bit() {
    let mut chip = chip();
    assert!(run(&mut chip, fives().enable()));
    assert_eq!(chip.registers[0x01], 0x01);
    assert!(run(&mut chip, fives().enable()));
    assert_eq!(chip.registers[0x01], 0x01);
    assert!(run(&mut chip, fives().disable()));
    assert_eq!(chip.registers[0x01], 0x00);
    assert!(run(&mut chip, fives().disable()));
    assert_eq!(chip.registers[0x01], 0x00);
    assert_eq!(
        chip.log,
        vec![write(0x01, 1), write(0x01, 1), write(0x01, 0), write(0x01, 0)]
    );
}

#[test]
fn write_register_is_one_write() {
    let operation = fives().write_register(0x36, 77);
    assert_eq!(operation.commands(), &vec![Command::Write { register: 0x36, value: 77 }]);
    let mut chip = chip();
    assert!(run(&mut chip, operation));
    assert_eq!(chip.log, vec![write(0x36, 77)]);
    assert_eq!(chip.registers[0x36], 77);
}

#[test]
fn enable_led_sets_only_its_bit() {
    let mut chip = chip();
    chip.registers[0x30] = 0b100;
    assert!(run(&mut chip, fives().enable_led(Led::Led0)));
    assert_eq!(chip.registers[0x30], 0b101);
    assert!(run(&mut chip, fives().enable_led(Led::Led1)));
    assert_eq!(chip.registers[0x30], 0b111);
    assert_eq!(
        chip.log,
        vec![read(0x30), write(0x30, 0b101), read(0x30), write(0x30, 0b111)]
    );
}

#[test]
fn disable_led_clears_only_its_bit() {
    let mut chip = chip();
    chip.registers[0x30] = 0b111;
    assert!(run(&mut chip, fives().disable_led(Led::Led1)));
    assert_eq!(chip.registers[0x30], 0b101);
    assert!(run(&mut chip, fives().disable_led(Led::Led2)));
    assert_eq!(chip.registers[0x30], 0b001);
    assert!(run(&mut chip, fives().disable_led(Led::Led2)));
    assert_eq!(chip.registers[0x30], 0b001);
}

#[test]
fn static_zero_only_clears_the_enable_bit() {
    for (led, mask) in [(Led::Led0, 0b001u8), (Led::Led1, 0b010), (Led::Led2, 0b100)] {
        let operation = fives().set_static(led, 0, Some(3), Some(4));
        assert_eq!(
            operation.commands(),
            &vec![Command::ClearBits { register: 0x30, mask }]
        );
        let mut chip = chip();
        chip.registers[0x30] = 0b111;
        let before = chip.registers;
        assert!(run(&mut chip, operation));
        assert_eq!(chip.log, vec![read(0x30), write(0x30, 0b111 & !mask)]);
        for register in 0..256usize {
            if register != 0x30 {
                assert_eq!(chip.registers[register], before[register]);
            }
        }
        assert_eq!(chip.registers[0x30], 0b111 & !mask);
    }
}

#[test]
fn static_half_brightness_writes_mode_then_pwm_then_enables() {
    let operation = fives().set_static(Led::Led0, 128, None, None);
    assert_eq!(
        operation.commands(),
        &vec![
            Command::Write { register: 0x31, value: 0x01 },
            Command::Write { register: 0x34, value: 128 },
            Command::SetBits { register: 0x30, mask: 0b001 },
        ]
    );
    let mut chip = chip();
    chip.registers[0x30] = 0b110;
    assert!(run(&mut chip, operation));
    assert_eq!(
        chip.log,
        vec![write(0x31, 0x01), write(0x34, 128), read(0x30), write(0x30, 0b111)]
    );
    assert_eq!(chip.registers[0x31], 0x01);
    assert_eq!(chip.registers[0x34], 128);
    for register in 0x37..=0x3Fusize {
        assert_eq!(chip.registers[register], 0);
    }
}

#[test]
fn static_uses_the_channels_own_current_limit() {
    let driver = Aw2013::new(0x45, [Current::Zero, Current::Ten, Current::Fifteen]);
    assert_eq!(
        driver.set_static(Led::Led0, 1, None, None).commands()[0],
        Command::Write { register: 0x31, value: 0x00 }
    );
    assert_eq!(
        driver.set_static(Led::Led1, 1, None, None).commands()[0],
        Command::Write { register: 0x32, value: 0x02 }
    );
    assert_eq!(
        driver.set_static(Led::Led2, 1, None, None).commands()[0],
        Command::Write { register: 0x33, value: 0x03 }
    );
}

#[test]
fn static_fade_in_goes_to_the_high_nibble_and_sets_its_mode_bit() {
    let operation = fives().set_static(Led::Led1, 255, Some(3), None);
    assert_eq!(
        operation.commands(),
        &vec![
            Command::Write { register: 0x3A, value: 0x30 },
            Command::Write { register: 0x32, value: 0x21 },
            Command::Write { register: 0x35, value: 255 },
            Command::SetBits { register: 0x30, mask: 0b010 },
        ]
    );
}

#[test]
fn static_fade_out_is_clamped_and_sets_its_mode_bit() {
    let operation = fives().set_static(Led::Led2, 9, None, Some(200));
    assert_eq!(
        operation.commands(),
        &vec![
            Command::Write { register: 0x3D, value: 0x70 },
            Command::Write { register: 0x33, value: 0x41 },
            Command::Write { register: 0x36, value: 9 },
            Command::SetBits { register: 0x30, mask: 0b100 },
        ]
    );
}

#[test]
fn static_fade_out_overwrites_fade_in() {
    let operation = mixed().set_static(Led::Led0, 10, Some(3), Some(9));
    assert_eq!(
        operation.commands(),
        &vec![
            Command::Write { register: 0x37, value: 0x30 },
            Command::Write { register: 0x37, value: 0x70 },
            Command::Write { register: 0x31, value: 0x61 },
            Command::Write { register: 0x34, value: 10 },
            Command::SetBits { register: 0x30, mask: 0b001 },
        ]
    );
    let mut chip = chip();
    assert!(run(&mut chip, operation));
    assert_eq!(chip.registers[0x37], 0x70);
    assert_eq!(chip.registers[0x31], 0x61);
    assert_eq!(chip.registers[0x30], 0b001);
}

#[test]
fn static_rgb_sets_the_channels_in_order() {
    let operation = mixed().set_static_rgb([128, 0, 255], None, None);
    assert_eq!(
        operation.commands(),
        &vec![
            Command::Write { register: 0x31, value: 0x01 },
            Command::Write { register: 0x34, value: 128 },
            Command::SetBits { register: 0x30, mask: 0b001 },
            Command::ClearBits { register: 0x30, mask: 0b010 },
            Command::Write { register: 0x33, value: 0x03 },
            Command::Write { register: 0x36, value: 255 },
            Command::SetBits { register: 0x30, mask: 0b100 },
        ]
    );
    let mut chip = chip();
    chip.registers[0x30] = 0b010;
    assert!(run(&mut chip, operation));
    assert_eq!(chip.registers[0x30], 0b101);
    assert_eq!(chip.registers[0x34], 128);
    assert_eq!(chip.registers[0x35], 0);
    assert_eq!(chip.registers[0x36], 255);
}

#[test]
fn static_rgb_equals_three_static_calls() {
    let driver = mixed();
    let rgb = [7u8, 0, 200];
    let mut expected: Vec<Command> = Vec::new();
    for (led, value) in [(Led::Led0, rgb[0]), (Led::Led1, rgb[1]), (Led::Led2, rgb[2])] {
        expected.extend(driver.set_static(led, value, Some(2), Some(5)).commands().iter().copied());
    }
    assert_eq!(driver.set_static_rgb(rgb, Some(2), Some(5)).commands(), &expected);
}

#[test]
fn static_rgb_failure_on_the_second_channel_keeps_the_first() {
    // Transfers 0 to 3 set channel 0; transfer 4 is the first of channel 1.
    let mut chip = chip_failing_at(4);
    chip.registers[0x32] = 0xAA;
    chip.registers[0x35] = 0xBB;
    chip.registers[0x33] = 0xCC;
    chip.registers[0x36] = 0xDD;
    assert!(!run(&mut chip, mixed().set_static_rgb([10, 20, 30], None, None)));
    assert_eq!(chip.registers[0x31], 0x01);
    assert_eq!(chip.registers[0x34], 10);
    assert_eq!(chip.registers[0x30], 0b001);
    assert_eq!(chip.registers[0x32], 0xAA);
    assert_eq!(chip.registers[0x35], 0xBB);
    assert_eq!(chip.registers[0x33], 0xCC);
    assert_eq!(chip.registers[0x36], 0xDD);
    assert_eq!(
        chip.log,
        vec![write(0x31, 0x01), write(0x34, 10), read(0x30), write(0x30, 0b001)]
    );
}

#[test]
fn static_rgb_failure_later_in_the_second_channel_spares_the_third() {
    // Transfer 5 writes the brightness of channel 1.
    let mut chip = chip_failing_at(5);
    chip.registers[0x33] = 0xCC;
    chip.registers[0x36] = 0xDD;
    assert!(!run(&mut chip, mixed().set_static_rgb([10, 20, 30], None, None)));
    assert_eq!(chip.registers[0x31], 0x01);
    assert_eq!(chip.registers[0x34], 10);
    assert_eq!(chip.registers[0x32], 0x02);
    assert_eq!(chip.registers[0x35], 0);
    assert_eq!(chip.registers[0x30], 0b001);
    assert_eq!(chip.registers[0x33], 0xCC);
    assert_eq!(chip.registers[0x36], 0xDD);
}

#[test]
fn failed_read_of_the_enable_register_writes_nothing_back() {
    let mut chip = chip_failing_at(2);
    chip.registers[0x30] = 0b100;
    assert!(!run(&mut chip, fives().set_static(Led::Led0, 128, None, None)));
    assert_eq!(chip.log, vec![write(0x31, 0x01), write(0x34, 128)]);
    assert_eq!(chip.registers[0x30], 0b100);
}

#[test]
fn configure_timing_clamps_rise_and_cycles() {
    let timing = Timing { rise: 9, hold: 2, fall: 1, off: 1, delay: 0, cycles: 20 };
    let operation = fives().configure_timing(Led::Led0, &timing);
    assert_eq!(
        operation.commands(),
        &vec![
            Command::Write { register: 0x37, value: 0x72 },
            Command::Write { register: 0x38, value: 0x11 },
            Command::Write { register: 0x39, value: 0x0F },
        ]
    );
    let mut chip = chip();
    assert!(run(&mut chip, operation));
    assert_eq!(chip.log, vec![write(0x37, 0x72), write(0x38, 0x11), write(0x39, 0x0F)]);
}

#[test]
fn configure_timing_uses_the_channels_registers() {
    let operation = fives().configure_timing(Led::Led2, &slow());
    assert_eq!(
        operation.commands(),
        &vec![
            Command::Write { register: 0x3D, value: 0x23 },
            Command::Write { register: 0x3E, value: 0x45 },
            Command::Write { register: 0x3F, value: 0x16 },
        ]
    );
}

#[test]
fn breathing_zero_only_disables_the_channel() {
    let operation = fives().set_breathing(Led::Led1, 0, &slow());
    assert_eq!(
        operation.commands(),
        &vec![Command::ClearBits { register: 0x30, mask: 0b010 }]
    );
    let mut chip = chip();
    chip.registers[0x30] = 0b111;
    assert!(run(&mut chip, operation));
    assert_eq!(chip.log, vec![read(0x30), write(0x30, 0b101)]);
}

#[test]
fn breathing_disables_configures_and_enables() {
    let operation = mixed().set_breathing(Led::Led1, 200, &slow());
    assert_eq!(
        operation.commands(),
        &vec![
            Command::ClearBits { register: 0x30, mask: 0b010 },
            Command::Write { register: 0x35, value: 200 },
            Command::Write { register: 0x3A, value: 0x23 },
            Command::Write { register: 0x3B, value: 0x45 },
            Command::Write { register: 0x3C, value: 0x16 },
            Command::Write { register: 0x32, value: 0x12 },
            Command::SetBits { register: 0x30, mask: 0b010 },
        ]
    );
    let mut chip = chip();
    chip.registers[0x30] = 0b111;
    assert!(run(&mut chip, operation));
    assert_eq!(
        chip.log,
        vec![
            read(0x30),
            write(0x30, 0b101),
            write(0x35, 200),
            write(0x3A, 0x23),
            write(0x3B, 0x45),
            write(0x3C, 0x16),
            write(0x32, 0x12),
            read(0x30),
            write(0x30, 0b111),
        ]
    );
}

#[test]
fn breathing_channel_stays_off_when_a_transfer_fails() {
    for fault in 2..8usize {
        let mut chip = chip_failing_at(fault);
        chip.registers[0x30] = 0b111;
        assert!(!run(&mut chip, mixed().set_breathing(Led::Led1, 200, &slow())));
        assert_eq!(chip.registers[0x30], 0b101);
    }
}

#[test]
fn breathing_rgb_writes_twenty_registers_in_order() {
    let operation = mixed().set_breathing_rgb([128, 0, 255], &slow());
    assert_eq!(
        operation.commands(),
        &vec![
            Command::Write { register: 0x30, value: 0 },
            Command::Write { register: 0x31, value: 0x01 },
            Command::Write { register: 0x32, value: 0x02 },
            Command::Write { register: 0x33, value: 0x03 },
            Command::Write { register: 0x34, value: 128 },
            Command::Write { register: 0x37, value: 0x23 },
            Command::Write { register: 0x38, value: 0x45 },
            Command::Write { register: 0x39, value: 0x16 },
            Command::Write { register: 0x35, value: 0 },
            Command::Write { register: 0x3A, value: 0x23 },
            Command::Write { register: 0x3B, value: 0x45 },
            Command::Write { register: 0x3C, value: 0x16 },
            Command::Write { register: 0x36, value: 255 },
            Command::Write { register: 0x3D, value: 0x23 },
            Command::Write { register: 0x3E, value: 0x45 },
            Command::Write { register: 0x3F, value: 0x16 },
            Command::Write { register: 0x31, value: 0x11 },
            Command::Write { register: 0x32, value: 0x12 },
            Command::Write { register: 0x33, value: 0x13 },
            Command::Write { register: 0x30, value: 0b101 },
        ]
    );
}

#[test]
fn breathing_rgb_enables_the_lit_channels_with_one_last_write() {
    for red in [0u8, 1, 255] {
        for green in [0u8, 7] {
            for blue in [0u8, 128] {
                let mut expected = 0u8;
                for (i, value) in [red, green, blue].iter().enumerate() {
                    if *value > 0 {
                        expected += 1 << i;
                    }
                }
                let mut chip = chip();
                chip.registers[0x30] = 0b111;
                assert!(run(&mut chip, fives().set_breathing_rgb([red, green, blue], &slow())));
                let enables: Vec<&Transfer> = chip
                    .log
                    .iter()
                    .filter(|t| matches!(t, Transfer::Write { register: 0x30, .. }))
                    .collect();
                assert_eq!(enables, vec![&write(0x30, 0), &write(0x30, expected)]);
                assert_eq!(chip.log.first(), Some(&write(0x30, 0)));
                assert_eq!(chip.log.last(), Some(&write(0x30, expected)));
                assert!(chip.log.iter().all(|t| !matches!(t, Transfer::Read { .. })));
                assert_eq!(chip.registers[0x30], expected);
            }
        }
    }
}

#[test]
fn breathing_rgb_keeps_all_channels_off_when_a_transfer_fails() {
    for fault in 1..20usize {
        let mut chip = chip_failing_at(fault);
        chip.registers[0x30] = 0b111;
        assert!(!run(&mut chip, fives().set_breathing_rgb([1, 2, 3], &slow())));
        assert_eq!(chip.registers[0x30], 0);
        assert_eq!(chip.log.len(), fault);
    }
}

#[test]
fn brightness_after_reset_leaves_the_module_disabled() {
    let driver = mixed();
    let operations: Vec<Operation> = vec![
        driver.set_static(Led::Led0, 128, Some(1), Some(2)),
        driver.set_static_rgb([1, 2, 3], None, None),
        driver.set_breathing(Led::Led2, 50, &slow()),
        driver.set_breathing_rgb([9, 0, 9], &slow()),
    ];
    for operation in operations {
        let mut chip = chip();
        assert!(run(&mut chip, driver.enable()));
        assert_eq!(chip.registers[0x01] & 0x01, 0x01);
        assert!(run(&mut chip, driver.reset()));
        assert_eq!(chip.registers[0x01] & 0x01, 0x00);
        assert!(run(&mut chip, operation));
        assert_eq!(chip.registers[0x01] & 0x01, 0x00);
        assert!(chip.log.iter().skip(2).all(|t| !matches!(
            t,
            Transfer::Write { register: 0x00 | 0x01, .. }
        )));
        assert!(run(&mut chip, driver.enable()));
        assert_eq!(chip.registers[0x01] & 0x01, 0x01);
    }
}

#[test]
fn first_failure_is_surfaced_and_the_rest_is_not_sent() {
    let mut chip = chip_failing_at(0);
    assert!(!run(&mut chip, fives().reset()));
    assert!(chip.log.is_empty());
    let mut chip = chip_failing_at(1);
    assert!(!run(&mut chip, fives().set_static(Led::Led0, 5, Some(1), None)));
    assert_eq!(chip.log, vec![write(0x37, 0x10)]);
    assert_eq!(chip.registers[0x31], 0);
    assert_eq!(chip.registers[0x34], 0);
}
