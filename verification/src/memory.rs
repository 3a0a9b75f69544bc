//! The memory bus and the console's own memories.

use vstd::prelude::*;
use crate::cartridge::nonzero;
use crate::cartridge::Cartridge;
use crate::cartridge::Controller;
use crate::cartridge::ControllerView;
use crate::cpu::Interrupt;
use crate::error::Error;
use crate::joypad::Joypad;
use crate::ppu::Ppu;
use crate::ppu::PpuView;
use crate::ppu::Registers;

verus! {

/// A memory that can be read: `A` is the address type and `V` the value
/// type.
pub trait MemoryRead<A, V> {
    /// Whether a read of `addr` is served.
    spec fn readable(&self, addr: A) -> bool;

    /// The value that a read of `addr` gives.
    spec fn peek(&self, addr: A) -> V;

    /// Read a single value from an address.
    fn read(&self, addr: A) -> (value: V)
        requires
            self.readable(addr),
        ensures
            value == self.peek(addr),
    ;
}

/// A memory that can be written: `A` is the address type and `V` the value
/// type.
pub trait MemoryWrite<A, V> {
    /// Whether a write of `value` to `addr` is served.
    spec fn writable(&self, addr: A, value: V) -> bool;

    /// Whether `after` is this memory once `value` is written to `addr`.
    spec fn written(&self, addr: A, value: V, after: &Self) -> bool;

    /// Write a single value to an address.
    fn write(&mut self, addr: A, value: V)
        requires
            old(self).writable(addr, value),
        ensures
            old(self).written(addr, value, final(self)),
    ;
}

/// Internal console work RAM.
///
/// * 0xC000 - 0xCFFF: bank 0, 4 KiB, static
/// * 0xD000 - 0xDFFF: bank 1, 4 KiB (without banks)
/// * 0xD000 - 0xDFFF: bank 1-7, 4 KiB, switchable (colour console)
pub enum Ram {
    Unbanked {
        /// Two static banks, 4 KiB each.
        data: Vec<u8>,
    },
    Banked {
        /// Eight banks, 4 KiB each.
        data: Vec<u8>,
        active_bank: u8,
    },
}

/// What a work [`Ram`] holds. Without banks the active bank is 1.
pub struct WorkRamView {
    pub data: Seq<u8>,
    pub banked: bool,
    pub active_bank: u8,
}

impl WorkRamView {
    pub open spec fn wf(self) -> bool {
        if self.banked {
            self.data.len() == 32768 && 1 <= self.active_bank <= 7
        } else {
            self.data.len() == 8192 && self.active_bank == 1
        }
    }

    /// Index into `data` of the byte seen at `addr`: the first 4 KiB of
    /// the window show bank 0, the rest the active bank.
    pub open spec fn offset(self, addr: u16) -> int {
        if addr < 0xD000 {
            addr - 0xC000
        } else {
            self.active_bank * 4096 + (addr - 0xD000)
        }
    }

    pub open spec fn read(self, addr: u16) -> u8 {
        self.data[self.offset(addr)]
    }

    pub open spec fn write(self, addr: u16, value: u8) -> WorkRamView {
        WorkRamView { data: self.data.update(self.offset(addr), value), ..self }
    }

    /// The low three bits of `bank` select the bank, zero selecting
    /// bank 1.
    pub open spec fn update_bank(self, bank: u8) -> WorkRamView {
        WorkRamView { active_bank: nonzero(bank & 0x07), ..self }
    }

    /// What reading the bank register gives: the active bank in bits 0
    /// to 2, every other bit set.
    pub open spec fn bank_register(self) -> u8 {
        self.active_bank | 0xF8
    }

    /// Zeroed work RAM with bank 1 selected, banked on the colour
    /// console.
    pub open spec fn blank(cgb: bool) -> WorkRamView {
        WorkRamView {
            data: Seq::new(
                if cgb {
                    32768
                } else {
                    8192
                },
                |i: int| 0u8,
            ),
            banked: cgb,
            active_bank: 1,
        }
    }
}

impl View for Ram {
    type V = WorkRamView;

    open spec fn view(&self) -> WorkRamView {
        match self {
            Ram::Unbanked { data } => WorkRamView { data: data@, banked: false, active_bank: 1 },
            Ram::Banked { data, active_bank } => WorkRamView {
                data: data@,
                banked: true,
                active_bank: *active_bank,
            },
        }
    }
}

proof fn lemma_three_bits(bank: u8)
    by (bit_vector)
    ensures
        bank & 0x07 <= 7,
{
}

impl Ram {
    pub const BANK_SIZE: usize = 4096;

    pub const BASE_ADDR: u16 = 0xC000;

    pub const LAST_ADDR: u16 = 0xDFFF;

    pub const BANK_SELECT_ADDR: u16 = 0xFF70;

    pub open spec fn wf(&self) -> bool {
        self@.wf()
    }

    /// Whether this work RAM is well formed.
    pub fn is_wf(&self) -> (b: bool)
        ensures
            b == self.wf(),
    {
        match self {
            Self::Unbanked { data } => data.len() == 2 * Self::BANK_SIZE,
            Self::Banked { data, active_bank } => data.len() == 8 * Self::BANK_SIZE && 1
                <= *active_bank && *active_bank <= 7,
        }
    }

    /// Whether this work RAM has switchable banks.
    pub fn is_banked(&self) -> (b: bool)
        ensures
            b == self@.banked,
    {
        match self {
            Self::Unbanked { .. } => false,
            Self::Banked { .. } => true,
        }
    }

    pub fn new(cgb: bool) -> (ram: Ram)
        ensures
            ram.wf(),
            ram@ == WorkRamView::blank(cgb),
    {
        if cgb {
            let data = vec![0u8; 32768];
            assert(data@ =~= Seq::new(32768, |i: int| 0u8));
            Self::Banked { data, active_bank: 1 }
        } else {
            let data = vec![0u8; 8192];
            assert(data@ =~= Seq::new(8192, |i: int| 0u8));
            Self::Unbanked { data }
        }
    }

    /// Update the active RAM bank.
    pub fn update_bank(&mut self, bank: u8)
        requires
            old(self).wf(),
            old(self)@.banked,
        ensures
            final(self).wf(),
            final(self)@ == old(self)@.update_bank(bank),
    {
        proof {
            lemma_three_bits(bank);
        }
        match self {
            Self::Banked { data: _, active_bank } => {
                let bank = bank & 0x07;
                *active_bank = if bank == 0 {
                    1
                } else {
                    bank
                };
            },
            _ => {},
        }
    }

    /// What reading the bank register gives.
    pub fn bank_register(&self) -> (value: u8)
        ensures
            value == self@.bank_register(),
    {
        match self {
            Self::Banked { data: _, active_bank } => *active_bank | 0xF8,
            _ => 1u8 | 0xF8,
        }
    }
}

impl MemoryRead<u16, u8> for Ram {
    open spec fn readable(&self, addr: u16) -> bool {
        self.wf() && 0xC000 <= addr <= 0xDFFF
    }

    open spec fn peek(&self, addr: u16) -> u8 {
        self@.read(addr)
    }

    fn read(&self, addr: u16) -> (value: u8) {
        let addr = (addr - Self::BASE_ADDR) as usize;
        match self {
            Self::Unbanked { data } => data[addr],
            Self::Banked { data, active_bank } => {
                if addr < Self::BANK_SIZE {
                    data[addr]
                } else {
                    let bank_offset = *active_bank as usize * Self::BANK_SIZE;
                    data[bank_offset + (addr - Self::BANK_SIZE)]
                }
            },
        }
    }
}

impl MemoryWrite<u16, u8> for Ram {
    open spec fn writable(&self, addr: u16, value: u8) -> bool {
        self.wf() && 0xC000 <= addr <= 0xDFFF
    }

    open spec fn written(&self, addr: u16, value: u8, after: &Self) -> bool {
        after.wf() && after@ == self@.write(addr, value)
    }

    fn write(&mut self, addr: u16, value: u8) {
        let addr = (addr - Self::BASE_ADDR) as usize;
        match self {
            Self::Unbanked { data } => {
                data[addr] = value;
            },
            Self::Banked { data, active_bank } => {
                if addr < Self::BANK_SIZE {
                    data[addr] = value;
                } else {
                    let bank_offset = *active_bank as usize * Self::BANK_SIZE;
                    data[bank_offset + (addr - Self::BANK_SIZE)] = value;
                }
            },
        }
    }
}

/// The timer: a divider that counts every 256 cycles, and a counter that
/// counts at the rate its control register selects.
#[derive(Clone, Copy, Debug, PartialEq, Eq, Structural)]
pub struct Timer {
    /// Divider register (0xFF04).
    pub div: u8,
    /// Timer counter (0xFF05).
    pub tima: u8,
    /// Timer modulo (0xFF06), loaded into the counter when it overflows.
    pub tma: u8,
    /// Timer control (0xFF07): bit 2 enables the counter, bits 0-1 select
    /// its rate.
    pub tac: u8,
    /// The cycle from which the counter's next tick is reckoned.
    pub last_tima_cycle: u64,
}

impl Timer {
    /// Cycles per tick of the divider.
    pub const TIMER_RATIO: u64 = 256;

    pub open spec fn zero() -> Timer {
        Timer { div: 0, tima: 0, tma: 0, tac: 0, last_tima_cycle: 0 }
    }

    pub open spec fn spec_enabled(&self) -> bool {
        self.tac & 0x04 != 0
    }

    /// Cycles per tick of the counter.
    pub open spec fn spec_tima_ratio(&self) -> u64 {
        if self.tac & 0x03 == 0 {
            1024
        } else if self.tac & 0x03 == 1 {
            16
        } else if self.tac & 0x03 == 2 {
            64
        } else {
            256
        }
    }

    /// Whether a step at `cycle` ticks the counter: it is enabled, and a
    /// tick's worth of cycles has passed.
    pub open spec fn ticks(self, cycle: u64) -> bool {
        self.spec_enabled() && cycle - self.last_tima_cycle >= self.spec_tima_ratio()
    }

    /// Whether a step at `cycle` asks for the timer interrupt: it ticks a
    /// counter that is full.
    pub open spec fn overflows(self, cycle: u64) -> bool {
        self.ticks(cycle) && self.tima == 0xFF
    }

    /// The timer after a step at the absolute cycle `cycle`. The divider
    /// shows the 256-cycle periods passed, modulo 256. A tick adds one to
    /// the counter; a full counter takes the modulo instead. While the
    /// counter is disabled, its ticks are reckoned from `cycle`.
    pub open spec fn after_step(self, cycle: u64) -> Timer {
        Timer {
            div: ((cycle / 256) % 256) as u8,
            tima: if self.overflows(cycle) {
                self.tma
            } else if self.ticks(cycle) {
                (self.tima + 1) as u8
            } else {
                self.tima
            },
            last_tima_cycle: if self.spec_enabled() {
                self.last_tima_cycle
            } else {
                cycle
            },
            ..self
        }
    }

    /// The register at `addr`, 0xFF04 to 0xFF07.
    pub open spec fn value(self, addr: u16) -> u8 {
        if addr == 0xFF04 {
            self.div
        } else if addr == 0xFF05 {
            self.tima
        } else if addr == 0xFF06 {
            self.tma
        } else {
            self.tac
        }
    }

    /// The timer once `value` is written to the register at `addr`,
    /// 0xFF04 to 0xFF07. Any write to the divider resets it.
    pub open spec fn after_write(self, addr: u16, value: u8) -> Timer {
        if addr == 0xFF04 {
            Timer { div: 0, ..self }
        } else if addr == 0xFF05 {
            Timer { tima: value, ..self }
        } else if addr == 0xFF06 {
            Timer { tma: value, ..self }
        } else {
            Timer { tac: value, ..self }
        }
    }

    pub fn new() -> (timer: Timer)
        ensures
            timer == Timer::zero(),
    {
        Self { div: 0, tima: 0, tma: 0, tac: 0, last_tima_cycle: 0 }
    }

    #[verifier::when_used_as_spec(spec_enabled)]
    pub fn enabled(&self) -> (b: bool)
        ensures
            b == self.spec_enabled(),
    {
        self.tac & 0x04 != 0
    }

    /// This function is called once per CPU step.
    ///
    /// Note that `cycle` is the absolute number of CPU cycles.
    ///
    /// Returns `true` if an interrupt should be triggered.
    pub fn step(&mut self, cycle: u64) -> (interrupt: bool)
        ensures
            *final(self) == old(self).after_step(cycle),
            interrupt == old(self).overflows(cycle),
    {
        self.div = ((cycle / Self::TIMER_RATIO) % 256) as u8;
        if self.enabled() {
            let ratio = self.tima_ratio();
            if cycle >= self.last_tima_cycle && cycle - self.last_tima_cycle >= ratio {
                if self.tima == 0xFF {
                    self.tima = self.tma;
                    return true;
                } else {
                    self.tima = self.tima + 1;
                }
            }
        } else {
            self.last_tima_cycle = cycle;
        }
        false
    }

    /// Returns the ratio of CPU clock cycle time to current TIMA clock
    /// mode in TAC.
    #[verifier::when_used_as_spec(spec_tima_ratio)]
    pub fn tima_ratio(&self) -> (ratio: u64)
        ensures
            ratio == self.spec_tima_ratio(),
    {
        let select = self.tac & 0x03;
        if select == 0 {
            Self::TIMER_RATIO * 4
        } else if select == 1 {
            Self::TIMER_RATIO / 16
        } else if select == 2 {
            Self::TIMER_RATIO / 4
        } else {
            Self::TIMER_RATIO
        }
    }

    pub fn read(&self, addr: u16) -> (value: u8)
        requires
            0xFF04 <= addr <= 0xFF07,
        ensures
            value == self.value(addr),
    {
        if addr == 0xFF04 {
            self.div
        } else if addr == 0xFF05 {
            self.tima
        } else if addr == 0xFF06 {
            self.tma
        } else {
            self.tac
        }
    }

    pub fn write(&mut self, addr: u16, value: u8)
        requires
            0xFF04 <= addr <= 0xFF07,
        ensures
            *final(self) == old(self).after_write(addr, value),
    {
        if addr == 0xFF04 {
            self.div = 0;
        } else if addr == 0xFF05 {
            self.tima = value;
        } else if addr == 0xFF06 {
            self.tma = value;
        } else {
            self.tac = value;
        }
    }
}

/// Memory-mapped I/O registers and buffers.
pub struct Io {
    /// Joypad register: 0xFF00.
    pub joypad: Joypad,
    /// Serial data and serial control: 0xFF01, 0xFF02.
    pub serial: [u8; 2],
    /// Timer: 0xFF04 - 0xFF07.
    pub timer: Timer,
    /// Interrupt flags: 0xFF0F.
    pub int_flags: u8,
    /// Sound registers: 0xFF10 - 0xFF26.
    pub sound: [u8; 23],
    /// Waveform RAM: 0xFF30 - 0xFF3F.
    pub waveform_ram: [u8; 16],
    /// Speed switch: 0xFF4D. Bit 0 is set while a switch is armed, bit 7
    /// while the processor runs at double speed.
    pub prep_speed_switch: u8,
    /// Boot ROM switch: 0xFF50. Not zero once the boot ROM is off.
    pub disable_boot_rom: u8,
    /// HDMA1-HDMA5: 0xFF51 - 0xFF55.
    pub hdma: [u8; 5],
    /// Infrared port: 0xFF56.
    pub rp: u8,
    /// Every byte sent through the serial port so far.
    pub serial_buffer: Vec<u8>,
}

/// What an [`Io`] holds.
pub struct IoView {
    pub joypad: Joypad,
    pub serial: Seq<u8>,
    pub timer: Timer,
    pub int_flags: u8,
    pub sound: Seq<u8>,
    pub waveform_ram: Seq<u8>,
    pub prep_speed_switch: u8,
    pub disable_boot_rom: u8,
    pub hdma: Seq<u8>,
    pub rp: u8,
    pub serial_buffer: Seq<u8>,
}

impl IoView {
    pub open spec fn wf(self) -> bool {
        &&& self.serial.len() == 2
        &&& self.sound.len() == 23
        &&& self.waveform_ram.len() == 16
        &&& self.hdma.len() == 5
    }

    /// Whether a register stands at `addr`.
    pub open spec fn mapped(addr: u16) -> bool {
        ||| 0xFF00 <= addr <= 0xFF02
        ||| 0xFF04 <= addr <= 0xFF07
        ||| addr == 0xFF0F
        ||| 0xFF10 <= addr <= 0xFF26
        ||| 0xFF30 <= addr <= 0xFF3F
        ||| addr == 0xFF4D
        ||| 0xFF50 <= addr <= 0xFF56
    }

    /// Whether the processor runs at double speed.
    pub open spec fn speed(self) -> bool {
        self.prep_speed_switch & 0x80 != 0
    }

    /// Whether a serial transfer has been asked for and not yet
    /// answered with an interrupt.
    pub open spec fn serial_pending(self) -> bool {
        self.serial[1] & 0x80 != 0
    }

    /// The registers once the serial interrupt, if one is pending, has
    /// been taken: the request bit is cleared.
    pub open spec fn serial_interrupt(self) -> IoView {
        if self.serial_pending() {
            IoView { serial: self.serial.update(1, self.serial[1] & 0x7F), ..self }
        } else {
            self
        }
    }

    /// The registers once the processor has stopped: an armed speed
    /// switch is carried out and disarmed.
    pub open spec fn stop(self) -> IoView {
        if self.prep_speed_switch & 0x01 != 0 {
            IoView { prep_speed_switch: (self.prep_speed_switch ^ 0x80) & 0x80, ..self }
        } else {
            self
        }
    }

    pub open spec fn trigger_interrupt(self, interrupt: Interrupt) -> IoView {
        IoView { int_flags: self.int_flags | interrupt.mask(), ..self }
    }

    pub open spec fn read(self, addr: u16) -> u8 {
        if addr == 0xFF00 {
            self.joypad.value()
        } else if addr == 0xFF01 {
            self.serial[0]
        } else if addr == 0xFF02 {
            self.serial[1]
        } else if addr <= 0xFF07 {
            self.timer.value(addr)
        } else if addr == 0xFF0F {
            self.int_flags
        } else if addr <= 0xFF26 {
            self.sound[addr - 0xFF10]
        } else if addr <= 0xFF3F {
            self.waveform_ram[addr - 0xFF30]
        } else if addr == 0xFF4D {
            self.prep_speed_switch
        } else if addr == 0xFF50 {
            self.disable_boot_rom
        } else if addr <= 0xFF55 {
            self.hdma[addr - 0xFF51]
        } else {
            self.rp
        }
    }

    /// The registers once `value` is written to the one at `addr`.
    /// Writing 0x81 to the serial control sends the serial data byte to
    /// the serial buffer. A write to the speed switch arms or disarms the
    /// switch by its bit 0 and leaves the speed as it is. A write to the
    /// boot ROM switch is heard only if it is not zero, so that the boot
    /// ROM, once off, stays off.
    pub open spec fn write(self, addr: u16, value: u8) -> IoView {
        if addr == 0xFF00 {
            IoView { joypad: self.joypad.after_write(value), ..self }
        } else if addr == 0xFF01 {
            IoView { serial: self.serial.update(0, value), ..self }
        } else if addr == 0xFF02 {
            IoView {
                serial: self.serial.update(1, value),
                serial_buffer: if value == 0x81 {
                    self.serial_buffer.push(self.serial[0])
                } else {
                    self.serial_buffer
                },
                ..self
            }
        } else if addr <= 0xFF07 {
            IoView { timer: self.timer.after_write(addr, value), ..self }
        } else if addr == 0xFF0F {
            IoView { int_flags: value, ..self }
        } else if addr <= 0xFF26 {
            IoView { sound: self.sound.update(addr - 0xFF10, value), ..self }
        } else if addr <= 0xFF3F {
            IoView { waveform_ram: self.waveform_ram.update(addr - 0xFF30, value), ..self }
        } else if addr == 0xFF4D {
            IoView { prep_speed_switch: (self.prep_speed_switch & 0x80) | (value & 0x01), ..self }
        } else if addr == 0xFF50 {
            IoView {
                disable_boot_rom: if value != 0 {
                    value
                } else {
                    self.disable_boot_rom
                },
                ..self
            }
        } else if addr <= 0xFF55 {
            IoView { hdma: self.hdma.update(addr - 0xFF51, value), ..self }
        } else {
            IoView { rp: value, ..self }
        }
    }

    /// Registers with everything zero, the joypad with no button held.
    pub open spec fn blank() -> IoView {
        IoView {
            joypad: Joypad::fresh(),
            serial: Seq::new(2, |i: int| 0u8),
            timer: Timer::zero(),
            int_flags: 0,
            sound: Seq::new(23, |i: int| 0u8),
            waveform_ram: Seq::new(16, |i: int| 0u8),
            prep_speed_switch: 0,
            disable_boot_rom: 0,
            hdma: Seq::new(5, |i: int| 0u8),
            rp: 0,
            serial_buffer: Seq::empty(),
        }
    }
}

impl View for Io {
    type V = IoView;

    open spec fn view(&self) -> IoView {
        IoView {
            joypad: self.joypad,
            serial: self.serial@,
            timer: self.timer,
            int_flags: self.int_flags,
            sound: self.sound@,
            waveform_ram: self.waveform_ram@,
            prep_speed_switch: self.prep_speed_switch,
            disable_boot_rom: self.disable_boot_rom,
            hdma: self.hdma@,
            rp: self.rp,
            serial_buffer: self.serial_buffer@,
        }
    }
}

impl Io {
    pub const BASE_ADDR: u16 = 0xFF00;

    pub const LAST_ADDR: u16 = 0xFF7F;

    pub const SC_ADDR: u16 = 0xFF02;

    pub const SC_REQUEST_MASK: u8 = 0x80;

    pub fn new() -> (io: Io)
        ensures
            io@ == IoView::blank(),
    {
        let io = Self {
            joypad: Joypad::new(),
            serial: [0u8; 2],
            timer: Timer::new(),
            int_flags: 0,
            sound: [0u8; 23],
            waveform_ram: [0u8; 16],
            prep_speed_switch: 0,
            disable_boot_rom: 0,
            hdma: [0u8; 5],
            rp: 0,
            serial_buffer: Vec::new(),
        };
        assert(io.serial@ =~= Seq::new(2, |i: int| 0u8));
        assert(io.sound@ =~= Seq::new(23, |i: int| 0u8));
        assert(io.waveform_ram@ =~= Seq::new(16, |i: int| 0u8));
        assert(io.hdma@ =~= Seq::new(5, |i: int| 0u8));
        io
    }

    /// Returns current CGB speed.
    ///
    /// `false`: regular, `true`: double
    pub fn speed(&self) -> (b: bool)
        ensures
            b == self@.speed(),
    {
        self.prep_speed_switch & 0x80 != 0
    }

    /// Return a reference to the joypad.
    pub fn joypad(&mut self) -> (joypad: &mut Joypad)
        ensures
            *joypad == old(self).joypad,
            *final(self) == (Io { joypad: *final(joypad), ..*old(self) }),
    {
        &mut self.joypad
    }

    pub fn timer(&mut self) -> (timer: &mut Timer)
        ensures
            *timer == old(self).timer,
            *final(self) == (Io { timer: *final(timer), ..*old(self) }),
    {
        &mut self.timer
    }

    /// Every byte sent through the serial port so far.
    pub fn serial_buffer(&self) -> (buffer: &Vec<u8>)
        ensures
            buffer@ == self@.serial_buffer,
    {
        &self.serial_buffer
    }

    /// Determine if a serial interrupt needs to be triggered.
    pub fn serial_interrupt(&mut self) -> (interrupt: bool)
        ensures
            interrupt == old(self)@.serial_pending(),
            final(self)@ == old(self)@.serial_interrupt(),
    {
        let sc = self.serial[1];
        if sc & Self::SC_REQUEST_MASK != 0 {
            self.serial[1] = sc & 0x7F;
            true
        } else {
            false
        }
    }

    /// Carries out an armed speed switch; called when the processor
    /// stops.
    pub fn stop(&mut self)
        ensures
            final(self)@ == old(self)@.stop(),
    {
        if self.prep_speed_switch & 0x01 != 0 {
            self.prep_speed_switch = (self.prep_speed_switch ^ 0x80) & 0x80;
        }
    }

    /// Sets the interrupt's bit in the interrupt flags.
    pub fn trigger_interrupt(&mut self, interrupt: Interrupt)
        ensures
            final(self)@ == old(self)@.trigger_interrupt(interrupt),
    {
        self.int_flags = self.int_flags | interrupt.to_mask();
    }
}

impl MemoryRead<u16, u8> for Io {
    open spec fn readable(&self, addr: u16) -> bool {
        IoView::mapped(addr)
    }

    open spec fn peek(&self, addr: u16) -> u8 {
        self@.read(addr)
    }

    fn read(&self, addr: u16) -> (value: u8) {
        if addr == 0xFF00 {
            self.joypad.read()
        } else if addr == 0xFF01 {
            self.serial[0]
        } else if addr == Self::SC_ADDR {
            self.serial[1]
        } else if addr <= 0xFF07 {
            self.timer.read(addr)
        } else if addr == 0xFF0F {
            self.int_flags
        } else if addr <= 0xFF26 {
            let idx = (addr - 0xFF10) as usize;
            self.sound[idx]
        } else if addr <= 0xFF3F {
            let idx = (addr - 0xFF30) as usize;
            self.waveform_ram[idx]
        } else if addr == 0xFF4D {
            self.prep_speed_switch
        } else if addr == 0xFF50 {
            self.disable_boot_rom
        } else if addr <= 0xFF55 {
            let idx = (addr - 0xFF51) as usize;
            self.hdma[idx]
        } else {
            self.rp
        }
    }
}

impl MemoryWrite<u16, u8> for Io {
    open spec fn writable(&self, addr: u16, value: u8) -> bool {
        IoView::mapped(addr)
    }

    open spec fn written(&self, addr: u16, value: u8, after: &Self) -> bool {
        after@ == self@.write(addr, value)
    }

    fn write(&mut self, addr: u16, value: u8) {
        if addr == 0xFF00 {
            self.joypad.write(value);
        } else if addr == 0xFF01 {
            self.serial[0] = value;
        } else if addr == Self::SC_ADDR {
            self.serial[1] = value;
            if value == 0x81 {
                self.serial_buffer.push(self.serial[0]);
            }
        } else if addr <= 0xFF07 {
            self.timer.write(addr, value);
        } else if addr == 0xFF0F {
            self.int_flags = value;
        } else if addr <= 0xFF26 {
            let idx = (addr - 0xFF10) as usize;
            self.sound[idx] = value;
        } else if addr <= 0xFF3F {
            let idx = (addr - 0xFF30) as usize;
            self.waveform_ram[idx] = value;
        } else if addr == 0xFF4D {
            self.prep_speed_switch = (self.prep_speed_switch & 0x80) | (value & 0x01);
        } else if addr == 0xFF50 {
            if value != 0 {
                self.disable_boot_rom = value;
            }
        } else if addr <= 0xFF55 {
            let idx = (addr - 0xFF51) as usize;
            self.hdma[idx] = value;
        } else {
            self.rp = value;
        }
    }
}

/// 64K memory map for the GBC.
pub struct MemoryBus {
    /// ROM: 0x0000 - 0x7FFF; cartridge RAM: 0xA000 - 0xBFFF.
    pub controller: Controller,
    /// Video RAM: 0x8000 - 0x9FFF; object memory: 0xFE00 - 0xFE9F.
    pub ppu: Ppu,
    /// Work RAM: 0xC000 - 0xDFFF.
    pub ram: Ram,
    /// I/O: 0xFF00 - 0xFF7F.
    pub io: Io,
    /// High RAM: 0xFF80 - 0xFFFE.
    pub high_ram: [u8; 0x80],
    /// Interrupt enable: 0xFFFF.
    pub int_enable: u8,
    /// Cycles run since power-on.
    pub cycle: u64,
}

/// What a [`MemoryBus`] holds.
pub struct MemoryBusView {
    pub controller: ControllerView,
    pub ppu: PpuView,
    pub ram: WorkRamView,
    pub io: IoView,
    pub high_ram: Seq<u8>,
    pub int_enable: u8,
    pub cycle: u64,
}

/// The low byte of a word.
pub open spec fn low_byte(value: u16) -> u8 {
    (value & 0xFF) as u8
}

/// The high byte of a word.
pub open spec fn high_byte(value: u16) -> u8 {
    (value >> 8) as u8
}

impl MemoryBusView {
    /// Every part is well formed, and video RAM and work RAM are banked
    /// as on the colour console.
    pub open spec fn wf(self) -> bool {
        &&& self.controller.wf()
        &&& self.ppu.wf()
        &&& self.ppu.vram.banked
        &&& self.ram.wf()
        &&& self.ram.banked
        &&& self.io.wf()
        &&& self.high_ram.len() == 0x80
    }

    /// Whether anything stands at `addr`. Below the registers everything
    /// does; among the registers, those of the picture unit and of the
    /// I/O file, and the two bank registers.
    pub open spec fn mapped(addr: u16) -> bool {
        ||| addr <= 0xFEFF
        ||| Registers::mapped(addr)
        ||| addr == 0xFF4F
        ||| addr == 0xFF70
        ||| addr >= 0xFF80
        ||| IoView::mapped(addr)
    }

    /// Whether the boot ROM is seen at 0x0000-0x00FF: there is one and
    /// it has not been switched off.
    pub open spec fn boot_visible(self) -> bool {
        self.controller.boot_rom is Some && self.io.disable_boot_rom == 0
    }

    /// The byte read at `addr`.
    pub open spec fn read(self, addr: u16) -> u8 {
        if addr <= 0x00FF && self.boot_visible() {
            self.controller.boot_rom->0[addr as int]
        } else if addr <= 0x7FFF {
            self.controller.read(addr)
        } else if addr <= 0x9FFF {
            self.ppu.vram.read(addr)
        } else if addr <= 0xBFFF {
            self.controller.read(addr)
        } else if addr <= 0xDFFF {
            self.ram.read(addr)
        } else if addr <= 0xFDFF {
            self.ram.read((addr - 0x2000) as u16)
        } else if addr <= 0xFE9F {
            self.ppu.read(addr)
        } else if addr <= 0xFEFF {
            0xFF
        } else if addr == 0xFF4F {
            self.ppu.vram.bank_register()
        } else if addr == 0xFF70 {
            self.ram.bank_register()
        } else if addr == 0xFFFF {
            self.int_enable
        } else if addr >= 0xFF80 {
            self.high_ram[addr - 0xFF80]
        } else if Registers::mapped(addr) {
            self.ppu.read(addr)
        } else {
            self.io.read(addr)
        }
    }

    /// Whether a write of `value` to `addr` is served: something stands
    /// at `addr`, and a write to the controller selects ROM banks that
    /// the ROM has.
    pub open spec fn accepts(self, addr: u16, value: u8) -> bool {
        Self::mapped(addr) && self.controller.accepts(addr, value)
    }

    /// The bus once the byte `value` is written to `addr`.
    pub open spec fn write(self, addr: u16, value: u8) -> MemoryBusView {
        if addr <= 0x7FFF {
            MemoryBusView { controller: self.controller.write(addr, value), ..self }
        } else if addr <= 0x9FFF {
            MemoryBusView { ppu: self.ppu.write(addr, value), ..self }
        } else if addr <= 0xBFFF {
            MemoryBusView { controller: self.controller.write(addr, value), ..self }
        } else if addr <= 0xDFFF {
            MemoryBusView { ram: self.ram.write(addr, value), ..self }
        } else if addr <= 0xFDFF {
            MemoryBusView { ram: self.ram.write((addr - 0x2000) as u16, value), ..self }
        } else if addr <= 0xFE9F {
            MemoryBusView { ppu: self.ppu.write(addr, value), ..self }
        } else if addr <= 0xFEFF {
            self
        } else if addr == 0xFF4F {
            MemoryBusView {
                ppu: PpuView { vram: self.ppu.vram.update_bank(value), ..self.ppu },
                ..self
            }
        } else if addr == 0xFF70 {
            MemoryBusView { ram: self.ram.update_bank(value), ..self }
        } else if addr == 0xFFFF {
            MemoryBusView { int_enable: value, ..self }
        } else if addr >= 0xFF80 {
            MemoryBusView { high_ram: self.high_ram.update(addr - 0xFF80, value), ..self }
        } else if Registers::mapped(addr) {
            MemoryBusView { ppu: self.ppu.write(addr, value), ..self }
        } else {
            MemoryBusView { io: self.io.write(addr, value), ..self }
        }
    }

    /// Whether a write of the word `value` to `addr` is served: both
    /// of its byte writes are, one after the other.
    pub open spec fn accepts_word(self, addr: u16, value: u16) -> bool {
        &&& addr < 0xFFFF
        &&& self.accepts(addr, low_byte(value))
        &&& self.write(addr, low_byte(value)).accepts((addr + 1) as u16, high_byte(value))
    }

    /// The bus once the word `value` is written to `addr`: its low byte
    /// to `addr`, then its high byte to `addr + 1`.
    pub open spec fn write_word(self, addr: u16, value: u16) -> MemoryBusView {
        self.write(addr, low_byte(value)).write((addr + 1) as u16, high_byte(value))
    }

    /// The cycle count once `cycles_taken` more cycles have run.
    pub open spec fn cycle_after(self, cycles_taken: u32) -> u64 {
        ((self.cycle + cycles_taken) % 0x1_0000_0000_0000_0000) as u64
    }

    /// The cycle count that the status tracker goes by: the low 32 bits
    /// of the count.
    pub open spec fn lcd_cycle(cycle: u64) -> u32 {
        (cycle % 0x1_0000_0000) as u32
    }

    /// The bus after a step of `cycles_taken` cycles of `cycle_time_ns`
    /// nanoseconds: the cycle count has moved on; then the status tracker,
    /// the timer and the serial port have taken their steps, in this
    /// order.
    pub open spec fn step(self, cycles_taken: u32, cycle_time_ns: u32) -> MemoryBusView {
        let cycle = self.cycle_after(cycles_taken);
        MemoryBusView {
            cycle,
            ppu: PpuView {
                registers: self.ppu.registers.after_update(
                    Self::lcd_cycle(cycle),
                    cycle_time_ns,
                ).registers,
                ..self.ppu
            },
            io: (IoView { timer: self.io.timer.after_step(cycle), ..self.io }).serial_interrupt(),
            ..self
        }
    }

    /// The interrupts that such a step asks for, in the order of their
    /// delivery.
    pub open spec fn pending(self, cycles_taken: u32, cycle_time_ns: u32) -> Seq<Interrupt> {
        let cycle = self.cycle_after(cycles_taken);
        let lcd = self.ppu.registers.after_update(Self::lcd_cycle(cycle), cycle_time_ns);
        let vblank = if lcd.vblank {
            seq![Interrupt::VBlank]
        } else {
            seq![]
        };
        let stat = if lcd.stat {
            seq![Interrupt::LcdStat]
        } else {
            seq![]
        };
        let timer = if self.io.timer.overflows(cycle) {
            seq![Interrupt::Timer]
        } else {
            seq![]
        };
        let serial = if self.io.serial_pending() {
            seq![Interrupt::Serial]
        } else {
            seq![]
        };
        vblank + stat + timer + serial
    }

    pub open spec fn trigger_interrupt(self, interrupt: Interrupt) -> MemoryBusView {
        MemoryBusView { io: self.io.trigger_interrupt(interrupt), ..self }
    }

    /// The bus once each of `interrupts` has been raised, first to last.
    pub open spec fn raise(self, interrupts: Seq<Interrupt>) -> MemoryBusView
        decreases interrupts.len(),
    {
        if interrupts.len() == 0 {
            self
        } else {
            self.raise(interrupts.drop_last()).trigger_interrupt(interrupts.last())
        }
    }

    /// The bus once the processor has stopped: an armed speed switch is
    /// carried out.
    pub open spec fn stop(self) -> MemoryBusView {
        MemoryBusView { io: self.io.stop(), ..self }
    }

    /// The bus as at power-on around its controller, whose RAM is put in
    /// anew.
    pub open spec fn reset(self) -> MemoryBusView {
        Self::around(self.controller.reset())
    }

    /// The bus with every memory zeroed around the given controller.
    pub open spec fn around(controller: ControllerView) -> MemoryBusView {
        MemoryBusView {
            controller,
            ppu: PpuView::blank(true),
            ram: WorkRamView::blank(true),
            io: IoView::blank(),
            high_ram: Seq::new(0x80, |i: int| 0u8),
            int_enable: 0,
            cycle: 0,
        }
    }
}

impl View for MemoryBus {
    type V = MemoryBusView;

    open spec fn view(&self) -> MemoryBusView {
        MemoryBusView {
            controller: self.controller@,
            ppu: self.ppu@,
            ram: self.ram@,
            io: self.io@,
            high_ram: self.high_ram@,
            int_enable: self.int_enable,
            cycle: self.cycle,
        }
    }
}

proof fn lemma_word_bytes(value: u16)
    by (bit_vector)
    ensures
        value & 0xFF <= 0xFF,
        value >> 8 <= 0xFF,
{
}

impl MemoryBus {
    pub open spec fn wf(&self) -> bool {
        &&& self@.wf()
        &&& self.controller.wf()
        &&& self.ppu.wf()
        &&& self.ram.wf()
    }

    /// Whether this bus is well formed.
    pub fn is_wf(&self) -> (b: bool)
        ensures
            b == self.wf(),
    {
        self.controller.is_wf() && self.ppu.vram.is_wf() && self.ppu.vram.is_banked()
            && self.ram.is_wf() && self.ram.is_banked()
    }

    pub fn new() -> (bus: MemoryBus)
        ensures
            bus.wf(),
            bus@ == MemoryBusView::around(ControllerView::default_state()),
    {
        Self::around(Controller::new())
    }

    pub fn from_cartridge(cartridge: Cartridge) -> (r: Result<MemoryBus, Error>)
        ensures
            match r {
                Ok(bus) => cartridge.fault() is None && bus.wf() && bus@ == MemoryBusView::around(
                    cartridge.controller(),
                ),
                Err(e) => cartridge.fault() == Some(e),
            },
    {
        match Controller::from_cartridge(cartridge) {
            Ok(controller) => Ok(Self::around(controller)),
            Err(e) => Err(e),
        }
    }

    fn around(controller: Controller) -> (bus: MemoryBus)
        requires
            controller.wf(),
        ensures
            bus.wf(),
            bus@ == MemoryBusView::around(controller@),
    {
        let bus = Self {
            controller,
            ppu: Ppu::new(true),
            ram: Ram::new(true),
            io: Io::new(),
            high_ram: [0u8; 0x80],
            int_enable: 0,
            cycle: 0,
        };
        assert(bus.high_ram@ =~= Seq::new(0x80, |i: int| 0u8));
        bus
    }

    pub fn controller(&mut self) -> (controller: &mut Controller)
        ensures
            *controller == old(self).controller,
            *final(self) == (MemoryBus { controller: *final(controller), ..*old(self) }),
    {
        &mut self.controller
    }

    /// Return a reference to the joypad.
    pub fn joypad(&mut self) -> (joypad: &mut Joypad)
        ensures
            *joypad == old(self).io.joypad,
            *final(self) == (MemoryBus {
                io: Io { joypad: *final(joypad), ..old(self).io },
                ..*old(self)
            }),
    {
        &mut self.io.joypad
    }

    pub fn timer(&mut self) -> (timer: &mut Timer)
        ensures
            *timer == old(self).io.timer,
            *final(self) == (MemoryBus {
                io: Io { timer: *final(timer), ..old(self).io },
                ..*old(self)
            }),
    {
        &mut self.io.timer
    }

    /// Return a reference to the I/O memory space.
    pub fn io(&self) -> (io: &Io)
        ensures
            *io == self.io,
    {
        &self.io
    }

    /// Return a mutable reference to the I/O memory space.
    pub fn io_mut(&mut self) -> (io: &mut Io)
        ensures
            *io == old(self).io,
            *final(self) == (MemoryBus { io: *final(io), ..*old(self) }),
    {
        &mut self.io
    }

    /// Return a reference to the PPU.
    pub fn ppu(&self) -> (ppu: &Ppu)
        ensures
            *ppu == self.ppu,
    {
        &self.ppu
    }

    /// Return a mutable reference to the PPU.
    pub fn ppu_mut(&mut self) -> (ppu: &mut Ppu)
        ensures
            *ppu == old(self).ppu,
            *final(self) == (MemoryBus { ppu: *final(ppu), ..*old(self) }),
    {
        &mut self.ppu
    }

    /// Whether a write of `value` to `addr` is served.
    pub fn accepts(&self, addr: u16, value: u8) -> (b: bool)
        requires
            self.wf(),
        ensures
            b == self@.accepts(addr, value),
    {
        Self::is_mapped(addr) && self.controller.accepts(addr, value)
    }

    /// Whether anything stands at `addr`.
    pub fn is_mapped(addr: u16) -> (b: bool)
        ensures
            b == MemoryBusView::mapped(addr),
    {
        addr <= 0xFEFF || (0xFF40 <= addr && addr <= 0xFF45) || addr == 0xFF4A || addr == 0xFF4B
            || (0xFF68 <= addr && addr <= 0xFF6B) || addr == 0xFF4F || addr == 0xFF70 || addr
            >= 0xFF80 || addr <= 0xFF02 || (0xFF04 <= addr && addr <= 0xFF07) || addr == 0xFF0F || (
        0xFF10 <= addr && addr <= 0xFF26) || (0xFF30 <= addr && addr <= 0xFF3F) || addr == 0xFF4D
            || (0xFF50 <= addr && addr <= 0xFF56)
    }

    /// Runs the bus for the cycles that the processor has taken: the
    /// status tracker, the timer and the serial port take their steps.
    /// Returns the interrupts that they ask for.
    pub fn step(&mut self, cycles_taken: u32, cycle_time_ns: u32) -> (interrupts: Vec<Interrupt>)
        requires
            old(self).wf(),
            cycle_time_ns >= 238,
        ensures
            final(self).wf(),
            final(self)@ == old(self)@.step(cycles_taken, cycle_time_ns),
            interrupts@ == old(self)@.pending(cycles_taken, cycle_time_ns),
    {
        let mut interrupts: Vec<Interrupt> = Vec::new();
        self.cycle = self.cycle.wrapping_add(cycles_taken as u64);
        let cycle = self.cycle;
        let (vblank, stat) = self.ppu.update((cycle % 0x1_0000_0000) as u32, cycle_time_ns);
        if vblank {
            interrupts.push(Interrupt::VBlank);
        }
        if stat {
            interrupts.push(Interrupt::LcdStat);
        }
        if self.io.timer.step(cycle) {
            interrupts.push(Interrupt::Timer);
        }
        if self.io.serial_interrupt() {
            interrupts.push(Interrupt::Serial);
        }
        assert(interrupts@ =~= old(self)@.pending(cycles_taken, cycle_time_ns));
        interrupts
    }

    /// Carries out an armed speed switch; called when the processor
    /// stops.
    pub fn stop(&mut self)
        requires
            old(self).wf(),
        ensures
            final(self).wf(),
            final(self)@ == old(self)@.stop(),
    {
        self.io.stop();
    }

    /// Puts the console's memories and registers back as at power-on and
    /// resets the controller.
    pub fn reset(&mut self)
        requires
            old(self).wf(),
        ensures
            final(self).wf(),
            final(self)@ == old(self)@.reset(),
    {
        self.controller.reset();
        self.ppu = Ppu::new(true);
        self.ram = Ram::new(true);
        self.io = Io::new();
        self.high_ram = [0u8; 0x80];
        self.int_enable = 0;
        self.cycle = 0;
        assert(self.high_ram@ =~= Seq::new(0x80, |i: int| 0u8));
    }

    /// Raises an interrupt: its bit is set in the interrupt flags.
    pub fn trigger_interrupt(&mut self, interrupt: Interrupt)
        requires
            old(self).wf(),
        ensures
            final(self).wf(),
            final(self)@ == old(self)@.trigger_interrupt(interrupt),
    {
        self.io.trigger_interrupt(interrupt);
    }
}

impl MemoryRead<u16, u8> for MemoryBus {
    open spec fn readable(&self, addr: u16) -> bool {
        self.wf() && MemoryBusView::mapped(addr)
    }

    open spec fn peek(&self, addr: u16) -> u8 {
        self@.read(addr)
    }

    /// Read a single byte from an arbitrary memory address.
    ///
    /// This will be converted into a read from the relevant memory
    /// section.
    fn read(&self, addr: u16) -> (value: u8) {
        if addr <= 0x00FF && self.io.disable_boot_rom == 0 {
            match &self.controller.boot_rom {
                Some(boot) => {
                    return boot.read(addr);
                },
                None => {},
            }
        }
        if addr <= 0x7FFF {
            self.controller.read(addr)
        } else if addr <= 0x9FFF {
            self.ppu.vram.read(addr)
        } else if addr <= 0xBFFF {
            self.controller.read(addr)
        } else if addr <= 0xDFFF {
            self.ram.read(addr)
        } else if addr <= 0xFDFF {
            self.ram.read(addr - 0x2000)
        } else if addr <= 0xFE9F {
            self.ppu.read(addr)
        } else if addr <= 0xFEFF {
            0xFF
        } else if addr == 0xFF4F {
            self.ppu.vram.bank_register()
        } else if addr == 0xFF70 {
            self.ram.bank_register()
        } else if addr == 0xFFFF {
            self.int_enable
        } else if addr >= 0xFF80 {
            let idx = (addr - 0xFF80) as usize;
            self.high_ram[idx]
        } else if (0xFF40 <= addr && addr <= 0xFF45) || addr == 0xFF4A || addr == 0xFF4B || (0xFF68
            <= addr && addr <= 0xFF6B) {
            self.ppu.read(addr)
        } else {
            self.io.read(addr)
        }
    }
}

impl MemoryWrite<u16, u8> for MemoryBus {
    open spec fn writable(&self, addr: u16, value: u8) -> bool {
        self.wf() && self@.accepts(addr, value)
    }

    open spec fn written(&self, addr: u16, value: u8, after: &Self) -> bool {
        after.wf() && after@ == self@.write(addr, value)
    }

    fn write(&mut self, addr: u16, value: u8) {
        if addr <= 0x7FFF {
            self.controller.write(addr, value);
        } else if addr <= 0x9FFF {
            self.ppu.write(addr, value);
        } else if addr <= 0xBFFF {
            self.controller.write(addr, value);
        } else if addr <= 0xDFFF {
            self.ram.write(addr, value);
        } else if addr <= 0xFDFF {
            self.ram.write(addr - 0x2000, value);
        } else if addr <= 0xFE9F {
            self.ppu.write(addr, value);
        } else if addr <= 0xFEFF {
        } else if addr == 0xFF4F {
            self.ppu.vram.update_bank(value);
        } else if addr == 0xFF70 {
            self.ram.update_bank(value);
        } else if addr == 0xFFFF {
            self.int_enable = value;
        } else if addr >= 0xFF80 {
            let idx = (addr - 0xFF80) as usize;
            self.high_ram[idx] = value;
        } else if (0xFF40 <= addr && addr <= 0xFF45) || addr == 0xFF4A || addr == 0xFF4B || (0xFF68
            <= addr && addr <= 0xFF6B) {
            self.ppu.write(addr, value);
        } else {
            self.io.write(addr, value);
        }
    }
}

/// Write a 16-bit word to memory. This maps into 2 8-bit writes to the
/// relevant memory region.
impl MemoryWrite<u16, u16> for MemoryBus {
    open spec fn writable(&self, addr: u16, value: u16) -> bool {
        self.wf() && self@.accepts_word(addr, value)
    }

    open spec fn written(&self, addr: u16, value: u16, after: &Self) -> bool {
        after.wf() && after@ == self@.write_word(addr, value)
    }

    fn write(&mut self, addr: u16, value: u16) {
        proof {
            lemma_word_bytes(value);
        }
        let low = (value & 0xFF) as u8;
        let high = (value >> 8) as u8;
        self.write(addr, low);
        self.write(addr + 1, high);
    }
}

/// Bank indices stay in bounds on the bus: a write that is served and a
/// step both leave the bus well formed, so that the two ROM bank indices and
/// the cartridge RAM's bank index are below the number of banks of their
/// stores. A step leaves the controller as it is.
pub proof fn lemma_bus_keeps_banks_in_bounds(
    bus: MemoryBusView,
    addr: u16,
    value: u8,
    cycles_taken: u32,
    cycle_time_ns: u32,
)
    requires
        bus.wf(),
    ensures
        bus.accepts(addr, value) ==> bus.write(addr, value).wf(),
        bus.step(cycles_taken, cycle_time_ns).wf(),
        bus.step(cycles_taken, cycle_time_ns).controller == bus.controller,
{
    if bus.accepts(addr, value) {
        crate::cartridge::lemma_write_keeps_banks_in_bounds(bus.controller, addr, value);
        lemma_three_bits(value);
        assert(value & 0x01 < 2) by (bit_vector);
    }
}

/// A write of a word leaves the bus as the write of its low byte to the
/// address and then of its high byte to the next address leave it.
pub proof fn lemma_word_write_is_two_byte_writes(bus: MemoryBusView, addr: u16, value: u16)
    requires
        addr <= 0xFFFE,
    ensures
        bus.write_word(addr, value) == bus.write(addr, (value & 0xFF) as u8).write(
            (addr + 1) as u16,
            (value >> 8) as u8,
        ),
{
}

/// After any write to the divider, the divider reads zero.
pub proof fn lemma_div_reset(bus: MemoryBusView, value: u8)
    ensures
        bus.write(0xFF04, value).read(0xFF04) == 0,
        bus.write(0xFF04, value).io.timer.value(0xFF04) == 0,
{
}

} // verus!
