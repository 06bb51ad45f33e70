//! SPI driver behaviour observed through the register model.

use arduino_hal::pac;
use arduino_hal::registers::{RegisterBank, SpiRegisters};
use arduino_hal::spi::{
    ChipSelectPin, DataOrder, Mode, Phase, Polarity, SerialClockRate, Settings, Spi,
    TransferError,
};
use arduino_hal::Peripherals;

const SPIF: u8 = 0x80;

fn settings_with(clock: SerialClockRate) -> Settings {
    Settings { clock, ..Settings::default() }
}

fn build_spi(settings: Settings, regs: &mut SpiRegisters) -> (Spi<arduino_hal::mode::PullUp>, ChipSelectPin, RegisterBank) {
    let p = Peripherals::new(pac::Peripherals::new());
    let mut bank = RegisterBank::new();
    let sclk = p.pins.pb5.into_output(&mut bank);
    let mosi = p.pins.pb3.into_output(&mut bank);
    let miso = p.pins.pb4.into_pull_up_input(&mut bank);
    let cs = p.pins.pb2.into_output(&mut bank);
    let (spi, cs_pin) = Spi::new(p.spi, sclk, mosi, miso, cs, settings, regs);
    (spi, cs_pin, bank)
}

#[test]
fn default_settings_values() {
    let s = Settings::default();
    assert_eq!(s.data_order, DataOrder::MostSignificantFirst);
    assert_eq!(s.clock, SerialClockRate::OscfOver4);
    assert_eq!(s.mode.polarity, Polarity::IdleLow);
    assert_eq!(s.mode.phase, Phase::CaptureOnSecondTransition);
}

#[test]
fn setup_programs_default_control_register() {
    let mut regs = SpiRegisters::new();
    regs.spdr = 0xAA;
    let (_spi, _cs, _bank) = build_spi(Settings::default(), &mut regs);
    // enable | primary role | capture-on-second-edge phase, prescaler /4.
    assert_eq!(regs.spcr, 0x40 | 0x10 | 0x04);
    assert_eq!(regs.spsr, 0x00);
    // The data register is not part of the programming.
    assert_eq!(regs.spdr, 0xAA);
}

#[test]
fn setup_sets_order_polarity_and_phase_bits() {
    let mut regs = SpiRegisters::new();
    let settings = Settings {
        data_order: DataOrder::LeastSignificantFirst,
        clock: SerialClockRate::OscfOver128,
        mode: Mode { polarity: Polarity::IdleHigh, phase: Phase::CaptureOnFirstTransition },
    };
    let (_spi, _cs, _bank) = build_spi(settings, &mut regs);
    // enable | LSB first | primary role | idle-high, prescaler /128.
    assert_eq!(regs.spcr, 0x40 | 0x20 | 0x10 | 0x08 | 0x03);
    assert_eq!(regs.spsr, 0x00);
}

#[test]
fn clock_table_is_exact() {
    // (selector, prescaler bits, double-speed bit)
    let table = [
        (SerialClockRate::OscfOver2, 0x00u8, true),
        (SerialClockRate::OscfOver4, 0x00u8, false),
        (SerialClockRate::OscfOver8, 0x01u8, true),
        (SerialClockRate::OscfOver16, 0x01u8, false),
        (SerialClockRate::OscfOver32, 0x02u8, true),
        (SerialClockRate::OscfOver64, 0x02u8, false),
        (SerialClockRate::OscfOver128, 0x03u8, false),
    ];
    for (clock, spr, double) in table {
        let mut regs = SpiRegisters::new();
        let (_spi, _cs, _bank) = build_spi(settings_with(clock), &mut regs);
        assert_eq!(regs.spcr & 0x03, spr);
        assert_eq!(regs.spsr & 0x01, if double { 0x01 } else { 0x00 });
        // Nothing but the double-speed bit is written to the status register.
        assert_eq!(regs.spsr & !0x01, 0x00);
    }
}

#[test]
fn send_flush_read_protocol() {
    let mut regs = SpiRegisters::new();
    let (mut spi, _cs, _bank) = build_spi(Settings::default(), &mut regs);

    assert_eq!(spi.send(0x5A, &mut regs), Ok(()));
    assert_eq!(regs.spdr, 0x5A);

    // The transfer-complete bit is still clear: flushing would block.
    assert_eq!(spi.flush(&regs), Err(TransferError::WouldBlock));
    assert_eq!(spi.flush(&regs), Err(TransferError::WouldBlock));

    // The hardware finishes the transfer (loopback: the sent byte is the
    // received byte) and raises the transfer-complete bit.
    regs.spsr |= SPIF;
    assert_eq!(spi.flush(&regs), Ok(()));
    // Idle again: flushing succeeds at once.
    assert_eq!(spi.flush(&regs), Ok(()));
    assert_eq!(spi.read(&regs), Ok(0x5A));
}

#[test]
fn read_blocks_while_write_is_pending() {
    let mut regs = SpiRegisters::new();
    let (mut spi, _cs, _bank) = build_spi(Settings::default(), &mut regs);

    assert_eq!(spi.send(0x77, &mut regs), Ok(()));
    assert_eq!(spi.read(&regs), Err(TransferError::WouldBlock));
    regs.spsr |= SPIF;
    assert_eq!(spi.read(&regs), Ok(0x77));
}

#[test]
fn send_blocks_while_write_is_pending() {
    let mut regs = SpiRegisters::new();
    let (mut spi, _cs, _bank) = build_spi(Settings::default(), &mut regs);

    assert_eq!(spi.send(0x01, &mut regs), Ok(()));
    assert_eq!(spi.send(0x02, &mut regs), Err(TransferError::WouldBlock));
    assert_eq!(regs.spdr, 0x01);

    regs.spsr |= SPIF;
    assert_eq!(spi.send(0x02, &mut regs), Ok(()));
    assert_eq!(regs.spdr, 0x02);
}

#[test]
fn reconfigure_waits_for_pending_write() {
    let mut regs = SpiRegisters::new();
    let (mut spi, _cs, _bank) = build_spi(Settings::default(), &mut regs);

    assert_eq!(spi.send(0x33, &mut regs), Ok(()));
    let spcr_before = regs.spcr;
    let spsr_before = regs.spsr;

    let new_settings = Settings {
        data_order: DataOrder::LeastSignificantFirst,
        clock: SerialClockRate::OscfOver2,
        mode: Mode { polarity: Polarity::IdleHigh, phase: Phase::CaptureOnFirstTransition },
    };
    // Still in flight: nothing may change.
    assert_eq!(spi.reconfigure(new_settings, &mut regs), Err(TransferError::WouldBlock));
    assert_eq!(regs.spcr, spcr_before);
    assert_eq!(regs.spsr, spsr_before);
    assert_eq!(regs.spdr, 0x33);

    // Transfer completes; the same call now applies the new settings.
    regs.spsr |= SPIF;
    assert_eq!(spi.reconfigure(new_settings, &mut regs), Ok(()));
    // enable | LSB first | primary | idle-high, prescaler /2 with double speed.
    assert_eq!(regs.spcr, 0x40 | 0x20 | 0x10 | 0x08);
    assert_eq!(regs.spsr, 0x01);
}

#[test]
fn release_disables_peripheral_and_returns_pins() {
    let mut regs = SpiRegisters::new();
    let (spi, cs, mut bank) = build_spi(Settings::default(), &mut regs);
    regs.spdr = 0x99;

    let (_token, mut sclk, _mosi, _miso, mut cs_pin) = spi.release(cs, &mut regs);
    assert_eq!(regs.spcr, 0x00);
    assert_eq!(regs.spdr, 0x99);

    // The returned pins are live output pins again.
    sclk.set_high(&mut bank);
    assert!(sclk.is_set_high(&bank));
    cs_pin.set_high(&mut bank);
    assert!(cs_pin.is_set_high(&bank));
}

#[test]
fn with_external_pullup_programs_registers() {
    let p = Peripherals::new(pac::Peripherals::new());
    let mut bank = RegisterBank::new();
    let mut regs = SpiRegisters::new();
    let sclk = p.pins.pb5.into_output(&mut bank);
    let mosi = p.pins.pb3.into_output(&mut bank);
    let miso = p.pins.pb4.into_floating_input(&mut bank);
    let mut spi = Spi::with_external_pullup(p.spi, sclk, mosi, miso, settings_with(SerialClockRate::OscfOver8), &mut regs);
    assert_eq!(regs.spcr, 0x40 | 0x10 | 0x04 | 0x01);
    assert_eq!(regs.spsr, 0x01);
    assert_eq!(spi.send(0x10, &mut regs), Ok(()));
}

#[test]
fn chip_select_exposes_output_operations() {
    let mut regs = SpiRegisters::new();
    let (_spi, mut cs, mut bank) = build_spi(Settings::default(), &mut regs);

    cs.set_low(&mut bank);
    assert!(cs.is_set_low(&bank));
    assert!(!cs.is_set_high(&bank));
    assert_eq!(bank.b.latch & 0x04, 0x00);

    cs.set_high(&mut bank);
    assert!(cs.is_set_high(&bank));
    assert_eq!(bank.b.latch & 0x04, 0x04);

    cs.toggle(&mut bank);
    assert!(cs.is_set_low(&bank));
}
