//! SPI master driver: configuration model, register programming and the
//! non-blocking byte transfer protocol.

use crate::mode;
use crate::pac;
use crate::pins::Pb;
use crate::port::Pin;
use crate::registers::{RegisterBank, SpiRegisters, spec_out_clear, spec_out_get, spec_out_set, spec_out_toggle};
use vstd::prelude::*;

verus! {

/// Control-register bit: SPI enable.
pub const SPCR_SPE: u8 = 0x40;

/// Control-register bit: data order, set for least-significant-bit first.
pub const SPCR_DORD: u8 = 0x20;

/// Control-register bit: primary (master) role.
pub const SPCR_MSTR: u8 = 0x10;

/// Control-register bit: clock polarity, set for idle-high.
pub const SPCR_CPOL: u8 = 0x08;

/// Control-register bit: clock phase, set for capture on the second edge.
pub const SPCR_CPHA: u8 = 0x04;

/// Status-register bit: transfer complete.
pub const SPSR_SPIF: u8 = 0x80;

/// Status-register bit: double-speed.
pub const SPSR_SPI2X: u8 = 0x01;

/// Oscillator clock frequency division options. The bus speed is the I/O
/// clock divided by the selected prescaler.
#[derive(Clone, Copy, Debug, PartialEq, Eq)]
pub enum SerialClockRate {
    OscfOver2,
    OscfOver4,
    OscfOver8,
    OscfOver16,
    OscfOver32,
    OscfOver64,
    OscfOver128,
}

/// Order of data transmission, either MSB first or LSB first.
#[derive(Clone, Copy, Debug, PartialEq, Eq)]
pub enum DataOrder {
    MostSignificantFirst,
    LeastSignificantFirst,
}

/// Clock polarity: the level of the clock line while the bus is idle.
#[derive(Clone, Copy, Debug, PartialEq, Eq)]
pub enum Polarity {
    IdleLow,
    IdleHigh,
}

/// Clock phase: the clock edge on which data is captured.
#[derive(Clone, Copy, Debug, PartialEq, Eq)]
pub enum Phase {
    CaptureOnFirstTransition,
    CaptureOnSecondTransition,
}

/// A polarity/phase pair.
#[derive(Clone, Copy, Debug, PartialEq, Eq)]
pub struct Mode {
    pub polarity: Polarity,
    pub phase: Phase,
}

/// Settings to pass to the SPI driver. Easiest to build with
/// `Settings::default()`; any field may be set directly.
#[derive(Clone, Copy, Debug, PartialEq, Eq)]
pub struct Settings {
    pub data_order: DataOrder,
    pub clock: SerialClockRate,
    pub mode: Mode,
}

/// The default settings: MSB first, the fourth prescaler level, clock idle
/// low with data captured on the second edge.
pub open spec fn spec_default_settings() -> Settings {
    Settings {
        data_order: DataOrder::MostSignificantFirst,
        clock: SerialClockRate::OscfOver4,
        mode: Mode { polarity: Polarity::IdleLow, phase: Phase::CaptureOnSecondTransition },
    }
}

impl Default for Settings {
    fn default() -> (r: Settings)
        ensures
            r == spec_default_settings(),
    {
        Settings {
            data_order: DataOrder::MostSignificantFirst,
            clock: SerialClockRate::OscfOver4,
            mode: Mode { polarity: Polarity::IdleLow, phase: Phase::CaptureOnSecondTransition },
        }
    }
}

/// The two low control-register bits selecting the clock prescaler. Two
/// selectors share each pair of bits; the double-speed bit tells them apart.
pub open spec fn spec_prescaler_bits(clock: SerialClockRate) -> u8 {
    match clock {
        SerialClockRate::OscfOver2 => 0u8,
        SerialClockRate::OscfOver4 => 0u8,
        SerialClockRate::OscfOver8 => 1u8,
        SerialClockRate::OscfOver16 => 1u8,
        SerialClockRate::OscfOver32 => 2u8,
        SerialClockRate::OscfOver64 => 2u8,
        SerialClockRate::OscfOver128 => 3u8,
    }
}

/// Whether the double-speed status bit is set for the selector.
pub open spec fn spec_double_speed(clock: SerialClockRate) -> bool {
    match clock {
        SerialClockRate::OscfOver2 => true,
        SerialClockRate::OscfOver4 => false,
        SerialClockRate::OscfOver8 => true,
        SerialClockRate::OscfOver16 => false,
        SerialClockRate::OscfOver32 => true,
        SerialClockRate::OscfOver64 => false,
        SerialClockRate::OscfOver128 => false,
    }
}

/// The control-register value programmed for the settings: enable, primary
/// role, the data-order, polarity and phase bits, and the prescaler bits.
pub open spec fn spec_spcr(s: Settings) -> u8 {
    (SPCR_SPE | SPCR_MSTR) | (if s.data_order == DataOrder::LeastSignificantFirst {
        SPCR_DORD
    } else {
        0u8
    }) | (if s.mode.polarity == Polarity::IdleHigh {
        SPCR_CPOL
    } else {
        0u8
    }) | (if s.mode.phase == Phase::CaptureOnSecondTransition {
        SPCR_CPHA
    } else {
        0u8
    }) | spec_prescaler_bits(s.clock)
}

/// The status-register value programmed for the settings: only the
/// double-speed bit, written in a second, separate register write.
pub open spec fn spec_spsr(s: Settings) -> u8 {
    if spec_double_speed(s.clock) {
        SPSR_SPI2X
    } else {
        0u8
    }
}

/// Whether the transfer-complete bit is set in the status register.
pub open spec fn spec_transfer_complete(r: SpiRegisters) -> bool {
    r.spsr & SPSR_SPIF != 0
}

/// The transient, non-fatal outcome of an SPI operation that has not yet
/// completed: the caller is expected to retry. The driver has no fatal
/// error: this peripheral, as driven here, cannot report a hardware fault.
#[derive(Clone, Copy, Debug, PartialEq, Eq)]
pub enum TransferError {
    WouldBlock,
}

/// Wrapper for the chip-select pin.
///
/// Holds the chip-select pin during operation so that its mode cannot be
/// changed away from output: were the line reconfigured as an input and then
/// observed low, the hardware would silently fall back from the primary to
/// the secondary role. Only the output-level operations are exposed.
pub struct ChipSelectPin {
    pin: Pin<mode::Output, Pb<2>>,
}

impl ChipSelectPin {
    /// The wrapped output pin.
    pub closed spec fn spec_pin(&self) -> Pin<mode::Output, Pb<2>> {
        self.pin
    }

    /// Drive chip select low.
    pub fn set_low(&mut self, bank: &mut RegisterBank)
        requires
            old(self).spec_pin().wf(),
        ensures
            final(self).spec_pin() == old(self).spec_pin(),
            *final(bank) == old(bank).with_port(
                old(self).spec_pin().spec_port(),
                spec_out_clear(
                    old(bank).port(old(self).spec_pin().spec_port()),
                    old(self).spec_pin().spec_mask(),
                ),
            ),
    {
        self.pin.set_low(bank)
    }

    /// Drive chip select high.
    pub fn set_high(&mut self, bank: &mut RegisterBank)
        requires
            old(self).spec_pin().wf(),
        ensures
            final(self).spec_pin() == old(self).spec_pin(),
            *final(bank) == old(bank).with_port(
                old(self).spec_pin().spec_port(),
                spec_out_set(
                    old(bank).port(old(self).spec_pin().spec_port()),
                    old(self).spec_pin().spec_mask(),
                ),
            ),
    {
        self.pin.set_high(bank)
    }

    /// Toggle the chip-select level.
    pub fn toggle(&mut self, bank: &mut RegisterBank)
        requires
            old(self).spec_pin().wf(),
        ensures
            final(self).spec_pin() == old(self).spec_pin(),
            *final(bank) == old(bank).with_port(
                old(self).spec_pin().spec_port(),
                spec_out_toggle(
                    old(bank).port(old(self).spec_pin().spec_port()),
                    old(self).spec_pin().spec_mask(),
                ),
            ),
    {
        self.pin.toggle(bank)
    }

    /// Whether chip select is driven low.
    pub fn is_set_low(&self, bank: &RegisterBank) -> (b: bool)
        requires
            self.spec_pin().wf(),
        ensures
            b == !spec_out_get(bank.port(self.spec_pin().spec_port()), self.spec_pin().spec_mask()),
    {
        self.pin.is_set_low(bank)
    }

    /// Whether chip select is driven high.
    pub fn is_set_high(&self, bank: &RegisterBank) -> (b: bool)
        requires
            self.spec_pin().wf(),
        ensures
            b == spec_out_get(bank.port(self.spec_pin().spec_port()), self.spec_pin().spec_mask()),
    {
        self.pin.is_set_high(bank)
    }
}

/// The SPI master driver.
///
/// Owns the peripheral token and the clock, data-out and data-in pins, so
/// that none of them can be reconfigured while SPI is active, together with
/// the active settings and the write-in-progress flag. The flag is true
/// exactly between a write of the data register and the observation of the
/// transfer-complete bit.
pub struct Spi<MisoInputMode: mode::InputMode> {
    spi: pac::SPI,
    sclk: Pin<mode::Output, Pb<5>>,
    mosi: Pin<mode::Output, Pb<3>>,
    miso: Pin<mode::Input<MisoInputMode>, Pb<4>>,
    settings: Settings,
    is_write_in_progress: bool,
}

impl<MisoInputMode: mode::InputMode> Spi<MisoInputMode> {
    /// The active settings.
    pub closed spec fn spec_settings(&self) -> Settings {
        self.settings
    }

    /// Whether a byte has been written whose completion has not yet been
    /// observed.
    pub closed spec fn write_in_progress(&self) -> bool {
        self.is_write_in_progress
    }

    /// The owned clock pin.
    pub closed spec fn spec_sclk(&self) -> Pin<mode::Output, Pb<5>> {
        self.sclk
    }

    /// The owned data-out pin.
    pub closed spec fn spec_mosi(&self) -> Pin<mode::Output, Pb<3>> {
        self.mosi
    }

    /// The owned data-in pin.
    pub closed spec fn spec_miso(&self) -> Pin<mode::Input<MisoInputMode>, Pb<4>> {
        self.miso
    }

    /// The drivers hold the same pins and settings; only the progress flag
    /// may differ, and `post`'s is `b`.
    pub open spec fn progress_set_to(pre: Self, post: Self, b: bool) -> bool {
        &&& post.write_in_progress() == b
        &&& post.spec_settings() == pre.spec_settings()
        &&& post.spec_sclk() == pre.spec_sclk()
        &&& post.spec_mosi() == pre.spec_mosi()
        &&& post.spec_miso() == pre.spec_miso()
    }

    /// `post` is `pre` reconfigured to `s`: same pins, new settings, no
    /// write in progress.
    pub open spec fn reconfigured_to(pre: Self, post: Self, s: Settings) -> bool {
        &&& !post.write_in_progress()
        &&& post.spec_settings() == s
        &&& post.spec_sclk() == pre.spec_sclk()
        &&& post.spec_mosi() == pre.spec_mosi()
        &&& post.spec_miso() == pre.spec_miso()
    }

    /// Program the control and status registers from the active settings:
    /// one atomic control-register write (enable, primary role, data order,
    /// polarity, phase, prescaler bits), then a second, separate write of
    /// the double-speed bit.
    fn setup(&self, regs: &mut SpiRegisters)
        ensures
            final(regs).spcr == spec_spcr(self.spec_settings()),
            final(regs).spsr == spec_spsr(self.spec_settings()),
            final(regs).spdr == old(regs).spdr,
    {
        let dord: u8 = match self.settings.data_order {
            DataOrder::MostSignificantFirst => 0u8,
            DataOrder::LeastSignificantFirst => SPCR_DORD,
        };
        let cpol: u8 = match self.settings.mode.polarity {
            Polarity::IdleHigh => SPCR_CPOL,
            Polarity::IdleLow => 0u8,
        };
        let cpha: u8 = match self.settings.mode.phase {
            Phase::CaptureOnFirstTransition => 0u8,
            Phase::CaptureOnSecondTransition => SPCR_CPHA,
        };
        let spr: u8 = match self.settings.clock {
            SerialClockRate::OscfOver2 => 0u8,
            SerialClockRate::OscfOver4 => 0u8,
            SerialClockRate::OscfOver8 => 1u8,
            SerialClockRate::OscfOver16 => 1u8,
            SerialClockRate::OscfOver32 => 2u8,
            SerialClockRate::OscfOver64 => 2u8,
            SerialClockRate::OscfOver128 => 3u8,
        };
        regs.spcr = (SPCR_SPE | SPCR_MSTR) | dord | cpol | cpha | spr;
        let double: bool = match self.settings.clock {
            SerialClockRate::OscfOver2 => true,
            SerialClockRate::OscfOver4 => false,
            SerialClockRate::OscfOver8 => true,
            SerialClockRate::OscfOver16 => false,
            SerialClockRate::OscfOver32 => true,
            SerialClockRate::OscfOver64 => false,
            SerialClockRate::OscfOver128 => false,
        };
        regs.spsr = if double {
            SPSR_SPI2X
        } else {
            0u8
        };
    }

    /// Write a byte to the data register, which begins transmission
    /// automatically, and raise the progress flag.
    fn write(&mut self, byte: u8, regs: &mut SpiRegisters)
        ensures
            Self::progress_set_to(*old(self), *final(self), true),
            *final(regs) == (SpiRegisters {
                spcr: old(regs).spcr,
                spsr: old(regs).spsr,
                spdr: byte,
            }),
    {
        self.is_write_in_progress = true;
        regs.spdr = byte;
    }

    /// Observe whether the pending write, if any, has completed. Succeeds at
    /// once when no write is pending; while one is, it succeeds exactly when
    /// the transfer-complete bit is set, clearing the progress flag, and
    /// returns the would-block outcome otherwise, changing nothing.
    pub fn flush(&mut self, regs: &SpiRegisters) -> (r: Result<(), TransferError>)
        ensures
            r is Ok <==> (!old(self).write_in_progress() || spec_transfer_complete(*regs)),
            r is Ok ==> Self::progress_set_to(*old(self), *final(self), false),
            r is Err ==> *final(self) == *old(self) && r == Err::<(), TransferError>(
                TransferError::WouldBlock,
            ),
    {
        if self.is_write_in_progress {
            if regs.spsr & SPSR_SPIF != 0 {
                self.is_write_in_progress = false;
                Ok(())
            } else {
                Err(TransferError::WouldBlock)
            }
        } else {
            Ok(())
        }
    }

    /// Send a byte once the previous write, if any, has completed: flush,
    /// then write the byte into the data register, which starts the
    /// transfer. Returns the would-block outcome, changing nothing, while
    /// the previous write is still in flight.
    pub fn send(&mut self, byte: u8, regs: &mut SpiRegisters) -> (r: Result<(), TransferError>)
        ensures
            r is Ok <==> (!old(self).write_in_progress() || spec_transfer_complete(*old(regs))),
            r is Ok ==> Self::progress_set_to(*old(self), *final(self), true) && *final(regs)
                == (SpiRegisters { spcr: old(regs).spcr, spsr: old(regs).spsr, spdr: byte }),
            r is Err ==> *final(self) == *old(self) && *final(regs) == *old(regs) && r
                == Err::<(), TransferError>(TransferError::WouldBlock),
    {
        match self.flush(regs) {
            Ok(()) => {
                self.write(byte, regs);
                Ok(())
            },
            Err(e) => Err(e),
        }
    }

    /// Read the byte the last completed transfer shifted into the data
    /// register. Flushes first: while a write is still in flight it returns
    /// the would-block outcome, changing nothing.
    pub fn read(&mut self, regs: &SpiRegisters) -> (r: Result<u8, TransferError>)
        ensures
            r is Ok <==> (!old(self).write_in_progress() || spec_transfer_complete(*regs)),
            r is Ok ==> Self::progress_set_to(*old(self), *final(self), false) && r == Ok::<
                u8,
                TransferError,
            >(regs.spdr),
            r is Err ==> *final(self) == *old(self) && r == Err::<u8, TransferError>(
                TransferError::WouldBlock,
            ),
    {
        match self.flush(regs) {
            Ok(()) => Ok(regs.spdr),
            Err(e) => Err(e),
        }
    }

    /// Re-apply the register programming with new settings, first waiting
    /// for any in-flight write: while one is pending the would-block outcome
    /// comes back and neither the driver nor any register is altered, so an
    /// in-flight transfer is never corrupted.
    pub fn reconfigure(&mut self, settings: Settings, regs: &mut SpiRegisters) -> (r: Result<
        (),
        TransferError,
    >)
        ensures
            r is Ok <==> (!old(self).write_in_progress() || spec_transfer_complete(*old(regs))),
            r is Ok ==> Self::reconfigured_to(*old(self), *final(self), settings)
                && final(regs).spcr == spec_spcr(settings)
                && final(regs).spsr == spec_spsr(settings)
                && final(regs).spdr == old(regs).spdr,
            r is Err ==> *final(self) == *old(self) && *final(regs) == *old(regs) && r
                == Err::<(), TransferError>(TransferError::WouldBlock),
    {
        match self.flush(regs) {
            Ok(()) => {
                self.settings = settings;
                self.setup(regs);
                Ok(())
            },
            Err(e) => Err(e),
        }
    }

    /// Disable the peripheral (one control-register write clearing every
    /// bit, the enable bit included) and give back the peripheral token and
    /// all four pins. The driver can no longer be used.
    pub fn release(self, cs: ChipSelectPin, regs: &mut SpiRegisters) -> (r: (
        pac::SPI,
        Pin<mode::Output, Pb<5>>,
        Pin<mode::Output, Pb<3>>,
        Pin<mode::Input<MisoInputMode>, Pb<4>>,
        Pin<mode::Output, Pb<2>>,
    ))
        ensures
            final(regs).spcr == 0,
            final(regs).spsr == old(regs).spsr,
            final(regs).spdr == old(regs).spdr,
            r.1 == self.spec_sclk(),
            r.2 == self.spec_mosi(),
            r.3 == self.spec_miso(),
            r.4 == cs.spec_pin(),
    {
        regs.spcr = 0;
        (self.spi, self.sclk, self.mosi, self.miso, cs.pin)
    }
}

impl Spi<mode::PullUp> {
    /// Build an SPI driver with the internal pull-up enabled on the data-in
    /// pin, program the registers from the settings, and wrap the
    /// chip-select pin so its mode cannot change while SPI is active.
    ///
    /// The pins are not touched; owning them enforces that they stay in the
    /// right mode for as long as the driver lives.
    pub fn new(
        spi: pac::SPI,
        sclk: Pin<mode::Output, Pb<5>>,
        mosi: Pin<mode::Output, Pb<3>>,
        miso: Pin<mode::Input<mode::PullUp>, Pb<4>>,
        cs: Pin<mode::Output, Pb<2>>,
        settings: Settings,
        regs: &mut SpiRegisters,
    ) -> (r: (Spi<mode::PullUp>, ChipSelectPin))
        ensures
            r.0.spec_settings() == settings,
            !r.0.write_in_progress(),
            r.0.spec_sclk() == sclk,
            r.0.spec_mosi() == mosi,
            r.0.spec_miso() == miso,
            r.1.spec_pin() == cs,
            final(regs).spcr == spec_spcr(settings),
            final(regs).spsr == spec_spsr(settings),
            final(regs).spdr == old(regs).spdr,
    {
        let spi_driver = Spi { spi, sclk, mosi, miso, settings, is_write_in_progress: false };
        spi_driver.setup(regs);
        (spi_driver, ChipSelectPin { pin: cs })
    }
}

impl Spi<mode::Floating> {
    /// Build an SPI driver whose data-in pin relies on an external pull-up,
    /// and program the registers from the settings.
    pub fn with_external_pullup(
        spi: pac::SPI,
        sclk: Pin<mode::Output, Pb<5>>,
        mosi: Pin<mode::Output, Pb<3>>,
        miso: Pin<mode::Input<mode::Floating>, Pb<4>>,
        settings: Settings,
        regs: &mut SpiRegisters,
    ) -> (r: Spi<mode::Floating>)
        ensures
            r.spec_settings() == settings,
            !r.write_in_progress(),
            r.spec_sclk() == sclk,
            r.spec_mosi() == mosi,
            r.spec_miso() == miso,
            final(regs).spcr == spec_spcr(settings),
            final(regs).spsr == spec_spsr(settings),
            final(regs).spdr == old(regs).spdr,
    {
        let spi_driver = Spi { spi, sclk, mosi, miso, settings, is_write_in_progress: false };
        spi_driver.setup(regs);
        spi_driver
    }
}

} // verus!
