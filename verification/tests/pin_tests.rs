//! Pin behaviour observed through the register model.

use arduino_hal::pac;
use arduino_hal::registers::RegisterBank;
use arduino_hal::Peripherals;

#[test]
fn output_set_high_reads_back() {
    let p = Peripherals::new(pac::Peripherals::new());
    let mut bank = RegisterBank::new();

    let mut led = p.pins.pd3.into_output(&mut bank);
    assert_eq!(bank.d.dir, 0x08);
    assert_eq!(bank.d.latch, 0x00);

    led.set_high(&mut bank);
    assert_eq!(bank.d.latch, 0x08);
    assert!(led.is_set_high(&bank));
    assert!(!led.is_set_low(&bank));

    led.set_low(&mut bank);
    assert_eq!(bank.d.latch, 0x00);
    assert!(led.is_set_low(&bank));
    assert!(!led.is_set_high(&bank));
}

#[test]
fn toggle_twice_restores_level() {
    let p = Peripherals::new(pac::Peripherals::new());
    let mut bank = RegisterBank::new();

    let mut led = p.pins.pb1.into_output(&mut bank);
    led.set_high(&mut bank);
    let before = led.is_set_high(&bank);
    let latch_before = bank.b.latch;

    led.toggle(&mut bank);
    assert!(!led.is_set_high(&bank));
    led.toggle(&mut bank);
    assert_eq!(led.is_set_high(&bank), before);
    assert_eq!(bank.b.latch, latch_before);
}

#[test]
fn floating_then_pull_up_changes_only_pull() {
    let p = Peripherals::new(pac::Peripherals::new());
    let mut bank = RegisterBank::new();
    // Leave the output mode first so the transitions have something to undo.
    let out = p.pins.pc2.into_output(&mut bank);
    assert_eq!(bank.c.dir, 0x04);

    let floating = out.into_floating_input(&mut bank);
    assert_eq!(bank.c.dir & 0x04, 0);
    assert_eq!(bank.c.latch & 0x04, 0);
    let dir_after_floating = bank.c.dir;

    let pulled = floating.into_pull_up_input(&mut bank);
    // Direction register untouched by the second transition.
    assert_eq!(bank.c.dir, dir_after_floating);
    // Latch bit now set: the pull-up is enabled through the latch.
    assert_eq!(bank.c.latch & 0x04, 0x04);

    let _ = pulled;
}

#[test]
fn input_levels_follow_input_register() {
    let p = Peripherals::new(pac::Peripherals::new());
    let mut bank = RegisterBank::new();

    let button = p.pins.pb0.into_pull_up_input(&mut bank);
    bank.b.input = 0x01;
    assert!(button.is_high(&bank));
    assert!(!button.is_low(&bank));

    bank.b.input = 0x00;
    assert!(button.is_low(&bank));
    assert!(!button.is_high(&bank));

    let floating = p.pins.pd7.into_floating_input(&mut bank);
    bank.d.input = 0x80;
    assert!(floating.is_high(&bank));
    bank.d.input = 0x00;
    assert!(floating.is_low(&bank));
}

#[test]
fn downgraded_pin_mask_is_single_bit() {
    let p = Peripherals::new(pac::Peripherals::new());
    let mut bank = RegisterBank::new();

    // The erased pin's mask is observable through the latch it sets.
    let mut dynamic = p.pins.pb3.into_output(&mut bank).downgrade();
    dynamic.set_high(&mut bank);
    assert_eq!(bank.b.latch, 1u8 << 3);
}

#[test]
fn downgraded_pin_acts_like_concrete_pin() {
    let p = Peripherals::new(pac::Peripherals::new());
    let mut concrete_bank = RegisterBank::new();
    let mut erased_bank = RegisterBank::new();

    let mut concrete = p.pins.pd5.into_output(&mut concrete_bank);
    concrete.set_high(&mut concrete_bank);
    concrete.toggle(&mut concrete_bank);
    concrete.toggle(&mut concrete_bank);
    let readback = concrete.is_set_high(&concrete_bank);

    // Re-play the same operations through the erased identity.
    let q = Peripherals::new(pac::Peripherals::new());
    let mut erased = q.pins.pd5.into_output(&mut erased_bank).downgrade();
    erased.set_high(&mut erased_bank);
    erased.toggle(&mut erased_bank);
    erased.toggle(&mut erased_bank);

    assert_eq!(erased_bank.d.latch, concrete_bank.d.latch);
    assert_eq!(erased_bank.d.dir, concrete_bank.d.dir);
    assert_eq!(erased_bank.d.input, concrete_bank.d.input);
    assert_eq!(erased.is_set_high(&erased_bank), readback);
}

#[test]
fn dynamic_pins_dispatch_to_their_ports() {
    let p = Peripherals::new(pac::Peripherals::new());
    let mut bank = RegisterBank::new();

    let mut on_b = p.pins.pb4.into_output(&mut bank).downgrade();
    let mut on_c = p.pins.pc1.into_output(&mut bank).downgrade();
    let mut on_d = p.pins.pd6.into_output(&mut bank).downgrade();

    on_b.set_high(&mut bank);
    on_c.set_high(&mut bank);
    on_d.set_high(&mut bank);

    assert_eq!(bank.b.latch, 0x10);
    assert_eq!(bank.c.latch, 0x02);
    assert_eq!(bank.d.latch, 0x40);

    // Input reads dispatch as well.
    let q = Peripherals::new(pac::Peripherals::new());
    let erased_in = q.pins.pc3.into_floating_input(&mut bank).downgrade();
    bank.c.input = 0x08;
    assert!(erased_in.is_high(&bank));
    bank.c.input = 0x00;
    assert!(erased_in.is_low(&bank));
}

#[test]
fn mode_transitions_write_one_port_only() {
    let p = Peripherals::new(pac::Peripherals::new());
    let mut bank = RegisterBank::new();

    let _out = p.pins.pb5.into_output(&mut bank);
    assert_eq!(bank.b.dir, 0x20);
    assert_eq!(bank.c.dir, 0x00);
    assert_eq!(bank.d.dir, 0x00);
    assert_eq!(bank.c.latch, 0x00);
    assert_eq!(bank.d.latch, 0x00);
}
