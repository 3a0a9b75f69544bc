//! Video RAM, object memory and the LCD status tracker.
//!
//! The status tracker derives the LCD's line and mode from a count of
//! cycles: a line lasts 456 dots, a frame 154 lines, of which the
//! first 144 are drawn and the rest are the vertical blank.

use vstd::prelude::*;
use crate::memory::MemoryRead;
use crate::memory::MemoryWrite;

verus! {

/// Phase of the LCD controller.
#[derive(Clone, Copy, Debug, PartialEq, Eq, Structural)]
pub enum StatMode {
    Hblank,
    Vblank,
    OamScan,
    OamRead,
}

impl StatMode {
    /// The mode's number, as the two low bits of the status register
    /// hold it.
    pub open spec fn bits(self) -> u8 {
        match self {
            StatMode::Hblank => 0,
            StatMode::Vblank => 1,
            StatMode::OamScan => 2,
            StatMode::OamRead => 3,
        }
    }

    /// The mode at `dot` of a line, `drawn` telling whether the line is
    /// one of the 144 that are drawn.
    pub open spec fn at(drawn: bool, dot: int) -> StatMode {
        if !drawn {
            StatMode::Vblank
        } else if dot < 80 {
            StatMode::OamScan
        } else if dot < 330 {
            StatMode::OamRead
        } else {
            StatMode::Hblank
        }
    }

    pub fn to_bits(self) -> (bits: u8)
        ensures
            bits == self.bits(),
    {
        match self {
            StatMode::Hblank => 0,
            StatMode::Vblank => 1,
            StatMode::OamScan => 2,
            StatMode::OamRead => 3,
        }
    }
}

/// Video RAM: one bank of 8 KiB, or two on the colour console.
#[derive(Debug)]
pub enum Vram {
    Unbanked {
        /// Static bank, 8 KiB.
        data: Vec<u8>,
    },
    Banked {
        /// Two banks, 8 KiB each.
        data: Vec<u8>,
        active_bank: u8,
    },
}

/// What a [`Vram`] holds. Without banks the active bank is 0.
pub struct VramView {
    pub data: Seq<u8>,
    pub banked: bool,
    pub active_bank: u8,
}

impl VramView {
    pub open spec fn wf(self) -> bool {
        if self.banked {
            self.data.len() == 16384 && self.active_bank < 2
        } else {
            self.data.len() == 8192 && self.active_bank == 0
        }
    }

    /// Index into `data` of the byte seen at `addr`.
    pub open spec fn offset(self, addr: u16) -> int {
        self.active_bank * 8192 + (addr - 0x8000)
    }

    pub open spec fn read(self, addr: u16) -> u8 {
        self.data[self.offset(addr)]
    }

    pub open spec fn write(self, addr: u16, value: u8) -> VramView {
        VramView { data: self.data.update(self.offset(addr), value), ..self }
    }

    pub open spec fn update_bank(self, bank: u8) -> VramView {
        VramView { active_bank: bank & 0x01, ..self }
    }

    /// What reading the bank register gives: the active bank in bit 0,
    /// every other bit set.
    pub open spec fn bank_register(self) -> u8 {
        self.active_bank | 0xFE
    }

    /// Zeroed video RAM, banked on the colour console.
    pub open spec fn blank(cgb: bool) -> VramView {
        VramView {
            data: Seq::new(
                if cgb {
                    16384
                } else {
                    8192
                },
                |i: int| 0u8,
            ),
            banked: cgb,
            active_bank: 0,
        }
    }
}

impl View for Vram {
    type V = VramView;

    open spec fn view(&self) -> VramView {
        match self {
            Vram::Unbanked { data } => VramView { data: data@, banked: false, active_bank: 0 },
            Vram::Banked { data, active_bank } => VramView {
                data: data@,
                banked: true,
                active_bank: *active_bank,
            },
        }
    }
}

proof fn lemma_low_bit(bank: u8)
    by (bit_vector)
    ensures
        bank & 0x01 < 2,
{
}

impl Vram {
    pub const BANK_SIZE: usize = 8192;

    pub const BASE_ADDR: u16 = 0x8000;

    pub const LAST_ADDR: u16 = 0x9FFF;

    pub const BANK_SELECT_ADDR: u16 = 0xFF4F;

    pub open spec fn wf(&self) -> bool {
        self@.wf()
    }

    /// Whether this video RAM is well formed.
    pub fn is_wf(&self) -> (b: bool)
        ensures
            b == self.wf(),
    {
        match self {
            Self::Unbanked { data } => data.len() == Self::BANK_SIZE,
            Self::Banked { data, active_bank } => data.len() == 2 * Self::BANK_SIZE && *active_bank
                < 2,
        }
    }

    /// Whether this video RAM has two banks.
    pub fn is_banked(&self) -> (b: bool)
        ensures
            b == self@.banked,
    {
        match self {
            Self::Unbanked { .. } => false,
            Self::Banked { .. } => true,
        }
    }

    pub fn new(cgb: bool) -> (vram: Vram)
        ensures
            vram.wf(),
            vram@ == VramView::blank(cgb),
    {
        if cgb {
            let data = vec![0u8; 16384];
            assert(data@ =~= Seq::new(16384, |i: int| 0u8));
            Self::Banked { data, active_bank: 0 }
        } else {
            let data = vec![0u8; 8192];
            assert(data@ =~= Seq::new(8192, |i: int| 0u8));
            Self::Unbanked { data }
        }
    }

    /// Update the active VRAM bank: bit 0 of `bank` selects it.
    pub fn update_bank(&mut self, bank: u8)
        requires
            old(self).wf(),
            old(self)@.banked,
        ensures
            final(self).wf(),
            final(self)@ == old(self)@.update_bank(bank),
    {
        proof {
            lemma_low_bit(bank);
        }
        match self {
            Self::Banked { data: _, active_bank } => {
                *active_bank = bank & 0x01;
            },
            _ => {},
        }
    }

    /// What reading the bank register gives.
    pub fn bank_register(&self) -> (value: u8)
        ensures
            value == self@.bank_register(),
    {
        match self {
            Self::Banked { data: _, active_bank } => *active_bank | 0xFE,
            _ => 0u8 | 0xFE,
        }
    }
}

impl MemoryRead<u16, u8> for Vram {
    open spec fn readable(&self, addr: u16) -> bool {
        self.wf() && 0x8000 <= addr <= 0x9FFF
    }

    open spec fn peek(&self, addr: u16) -> u8 {
        self@.read(addr)
    }

    fn read(&self, addr: u16) -> (value: u8) {
        let addr = (addr - Self::BASE_ADDR) as usize;
        match self {
            Self::Unbanked { data } => data[addr],
            Self::Banked { data, active_bank } => {
                let bank_offset = *active_bank as usize * Self::BANK_SIZE;
                data[bank_offset + addr]
            },
        }
    }
}

impl MemoryWrite<u16, u8> for Vram {
    open spec fn writable(&self, addr: u16, value: u8) -> bool {
        self.wf() && 0x8000 <= addr <= 0x9FFF
    }

    open spec fn written(&self, addr: u16, value: u8, after: &Self) -> bool {
        after.wf() && after@ == self@.write(addr, value)
    }

    fn write(&mut self, addr: u16, value: u8) {
        let addr = (addr - Self::BASE_ADDR) as usize;
        match self {
            Self::Unbanked { data } => {
                data[addr] = value;
            },
            Self::Banked { data, active_bank } => {
                let bank_offset = *active_bank as usize * Self::BANK_SIZE;
                data[bank_offset + addr] = value;
            },
        }
    }
}

/// The LCD registers and the enable flags of the four sources of the
/// status interrupt.
#[derive(Clone, Copy, Debug, PartialEq, Eq, Structural)]
pub struct Registers {
    /// LCD control register (0xFF40).
    pub lcdc: u8,
    /// LCD status register (0xFF41): the mode in bits 0-1, the
    /// line-coincidence flag in bit 2.
    pub stat: u8,
    /// Background position registers (0xFF42, 0xFF43).
    pub scy: u8,
    pub scx: u8,
    /// LCD line registers (0xFF44, 0xFF45).
    pub ly: u8,
    pub lyc: u8,
    /// Window position registers (0xFF4A, 0xFF4B).
    pub wy: u8,
    pub wx: u8,
    /// Colour palette registers (0xFF68-0xFF6B).
    pub bcps: u8,
    pub bcpd: u8,
    pub ocps: u8,
    pub ocpd: u8,
    /// Interrupt enable flags.
    pub oam_enabled: bool,
    pub vblank_enabled: bool,
    pub hblank_enabled: bool,
    pub ly_enabled: bool,
}

/// What one update of the status tracker gives: the registers after it
/// and the two interrupt signals.
pub struct Update {
    pub registers: Registers,
    pub vblank: bool,
    pub stat: bool,
}

impl Registers {
    /// Whether `addr` is one of the registers.
    pub open spec fn mapped(addr: u16) -> bool {
        0xFF40 <= addr <= 0xFF45 || addr == 0xFF4A || addr == 0xFF4B || 0xFF68 <= addr <= 0xFF6B
    }

    pub open spec fn zero() -> Registers {
        Registers {
            lcdc: 0,
            stat: 0,
            scy: 0,
            scx: 0,
            ly: 0,
            lyc: 0,
            wy: 0,
            wx: 0,
            bcps: 0,
            bcpd: 0,
            ocps: 0,
            ocpd: 0,
            oam_enabled: false,
            vblank_enabled: false,
            hblank_enabled: false,
            ly_enabled: false,
        }
    }

    /// The register at `addr`.
    pub open spec fn value(self, addr: u16) -> u8 {
        if addr == 0xFF40 {
            self.lcdc
        } else if addr == 0xFF41 {
            self.stat
        } else if addr == 0xFF42 {
            self.scy
        } else if addr == 0xFF43 {
            self.scx
        } else if addr == 0xFF44 {
            self.ly
        } else if addr == 0xFF45 {
            self.lyc
        } else if addr == 0xFF4A {
            self.wy
        } else if addr == 0xFF4B {
            self.wx
        } else if addr == 0xFF68 {
            self.bcps
        } else if addr == 0xFF69 {
            self.bcpd
        } else if addr == 0xFF6A {
            self.ocps
        } else {
            self.ocpd
        }
    }

    /// The registers once `value` is written to the one at `addr`. A
    /// write to the status register also sets the four enable flags from
    /// its bits 3 to 6. The line register takes any value while its bit 7
    /// is clear; while it is set, only a value with bit 7 clear is heard,
    /// and clears the register. A write to the background palette data
    /// clears the palette index when the index has bit 7 set.
    pub open spec fn after_write(self, addr: u16, value: u8) -> Registers {
        if addr == 0xFF40 {
            Registers { lcdc: value, ..self }
        } else if addr == 0xFF41 {
            Registers {
                stat: value,
                hblank_enabled: value & 0x08 != 0,
                vblank_enabled: value & 0x10 != 0,
                oam_enabled: value & 0x20 != 0,
                ly_enabled: value & 0x40 != 0,
                ..self
            }
        } else if addr == 0xFF42 {
            Registers { scy: value, ..self }
        } else if addr == 0xFF43 {
            Registers { scx: value, ..self }
        } else if addr == 0xFF44 {
            if self.ly & 0x80 != 0 {
                if value & 0x80 == 0 {
                    Registers { ly: 0, ..self }
                } else {
                    self
                }
            } else {
                Registers { ly: value, ..self }
            }
        } else if addr == 0xFF45 {
            Registers { lyc: value, ..self }
        } else if addr == 0xFF4A {
            Registers { wy: value, ..self }
        } else if addr == 0xFF4B {
            Registers { wx: value, ..self }
        } else if addr == 0xFF68 {
            Registers { bcps: value, ..self }
        } else if addr == 0xFF69 {
            Registers {
                bcpd: value,
                bcps: if self.bcps & 0x80 != 0 {
                    0
                } else {
                    self.bcps
                },
                ..self
            }
        } else if addr == 0xFF6A {
            Registers { ocps: value, ..self }
        } else {
            Registers { ocpd: value, ..self }
        }
    }

    /// The dot that the LCD has reached after `cycle` cycles of
    /// `cycle_time` nanoseconds, a dot lasting 238.
    pub open spec fn dot(cycle: u32, cycle_time: u32) -> int {
        cycle as int / (cycle_time as int / 238)
    }

    /// The line of the frame at that dot.
    pub open spec fn line(cycle: u32, cycle_time: u32) -> int {
        (Self::dot(cycle, cycle_time) / 456) % 154
    }

    /// The mode at that dot.
    pub open spec fn mode(cycle: u32, cycle_time: u32) -> StatMode {
        StatMode::at(Self::line(cycle, cycle_time) < 144, Self::dot(cycle, cycle_time) % 456)
    }

    /// Whether the status interrupt is enabled for `mode`.
    pub open spec fn enabled(self, mode: StatMode) -> bool {
        match mode {
            StatMode::Hblank => self.hblank_enabled,
            StatMode::Vblank => self.vblank_enabled,
            StatMode::OamScan | StatMode::OamRead => self.oam_enabled,
        }
    }

    /// The status tracker's step. The line register takes the line and the
    /// status register the mode, with the coincidence flag in bit 2 set
    /// exactly when the line is the one in the compare register. The
    /// vertical-blank interrupt is due when the mode has changed to
    /// vertical blank; the status interrupt when the mode has changed to
    /// one whose source is enabled, or when the coincidence flag has risen
    /// with its source enabled.
    pub open spec fn after_update(self, cycle: u32, cycle_time: u32) -> Update {
        let line = Self::line(cycle, cycle_time) as u8;
        let mode = Self::mode(cycle, cycle_time);
        let coincidence = line == self.lyc;
        let changed = self.stat & 0x03 != mode.bits();
        Update {
            registers: Registers {
                ly: line,
                stat: if coincidence {
                    mode.bits() | 0x04
                } else {
                    mode.bits()
                },
                ..self
            },
            vblank: changed && mode == StatMode::Vblank,
            stat: (self.ly_enabled && self.stat & 0x04 == 0 && coincidence) || (changed
                && self.enabled(mode)),
        }
    }

    pub fn read(&self, addr: u16) -> (value: u8)
        requires
            Registers::mapped(addr),
        ensures
            value == self.value(addr),
    {
        if addr == 0xFF40 {
            self.lcdc
        } else if addr == Ppu::STAT_ADDR {
            self.stat
        } else if addr == 0xFF42 {
            self.scy
        } else if addr == 0xFF43 {
            self.scx
        } else if addr == Ppu::LY_ADDR {
            self.ly
        } else if addr == 0xFF45 {
            self.lyc
        } else if addr == 0xFF4A {
            self.wy
        } else if addr == 0xFF4B {
            self.wx
        } else if addr == 0xFF68 {
            self.bcps
        } else if addr == 0xFF69 {
            self.bcpd
        } else if addr == 0xFF6A {
            self.ocps
        } else {
            self.ocpd
        }
    }

    pub fn write(&mut self, addr: u16, value: u8)
        requires
            Registers::mapped(addr),
        ensures
            *final(self) == old(self).after_write(addr, value),
    {
        if addr == 0xFF40 {
            self.lcdc = value;
        } else if addr == Ppu::STAT_ADDR {
            self.stat = value;
            self.hblank_enabled = value & 0x08 != 0;
            self.vblank_enabled = value & 0x10 != 0;
            self.oam_enabled = value & 0x20 != 0;
            self.ly_enabled = value & 0x40 != 0;
        } else if addr == 0xFF42 {
            self.scy = value;
        } else if addr == 0xFF43 {
            self.scx = value;
        } else if addr == Ppu::LY_ADDR {
            if self.ly & 0x80 != 0 {
                if value & 0x80 == 0 {
                    self.ly = 0;
                }
            } else {
                self.ly = value;
            }
        } else if addr == 0xFF45 {
            self.lyc = value;
        } else if addr == 0xFF4A {
            self.wy = value;
        } else if addr == 0xFF4B {
            self.wx = value;
        } else if addr == 0xFF68 {
            self.bcps = value;
        } else if addr == 0xFF69 {
            self.bcpd = value;
            if self.bcps & 0x80 != 0 {
                self.bcps = 0;
            }
        } else if addr == 0xFF6A {
            self.ocps = value;
        } else {
            self.ocpd = value;
        }
    }

    /// Update the status registers based on current cycle and cycle time.
    ///
    /// Returned tuple contains two interrupt flags: (Vblank, LcdStat).
    pub fn update(&mut self, cycle: u32, cycle_time: u32) -> (signals: (bool, bool))
        requires
            cycle_time >= 238,
        ensures
            *final(self) == old(self).after_update(cycle, cycle_time).registers,
            signals.0 == old(self).after_update(cycle, cycle_time).vblank,
            signals.1 == old(self).after_update(cycle, cycle_time).stat,
    {
        let dot = cycle / (cycle_time / Ppu::DOT_DURATION_NS);
        let line = ((dot / Ppu::DOTS_PER_LINE) % Ppu::LINES_PER_FRAME) as u8;
        self.ly = line;
        let prev_ly_coincidence = self.stat & 0x04 != 0;
        let ly_coincidence = self.ly == self.lyc;
        let prev_mode = self.stat & 0x03;
        let mode = if line < Ppu::VBLANK_START_LINE {
            let dot = dot % Ppu::DOTS_PER_LINE;
            if dot < 80 {
                StatMode::OamScan
            } else if dot < 330 {
                StatMode::OamRead
            } else {
                StatMode::Hblank
            }
        } else {
            StatMode::Vblank
        };
        let mut stat = mode.to_bits();
        if ly_coincidence {
            stat = stat | 0x04;
        }
        self.stat = stat;
        let changed = prev_mode != mode.to_bits();
        let vblank_interrupt = changed && mode == StatMode::Vblank;
        let stat_interrupt = (self.ly_enabled && !prev_ly_coincidence && ly_coincidence) || (changed
            && match mode {
            StatMode::Hblank => self.hblank_enabled,
            StatMode::Vblank => self.vblank_enabled,
            StatMode::OamScan | StatMode::OamRead => self.oam_enabled,
        });
        (vblank_interrupt, stat_interrupt)
    }
}

/// The picture unit as the bus sees it: video RAM, object memory and the
/// LCD registers.
#[derive(Debug)]
pub struct Ppu {
    /// Video RAM (0x8000-0x9FFF).
    pub vram: Vram,
    /// Object attribute memory (0xFE00-0xFE9F): 40 objects of 4 bytes.
    pub oam: [u8; 160],
    pub registers: Registers,
}

/// What a [`Ppu`] holds.
pub struct PpuView {
    pub vram: VramView,
    pub oam: Seq<u8>,
    pub registers: Registers,
}

impl PpuView {
    pub open spec fn wf(self) -> bool {
        self.vram.wf() && self.oam.len() == 160
    }

    /// Whether `addr` is served: video RAM, object memory or a register.
    pub open spec fn mapped(addr: u16) -> bool {
        0x8000 <= addr <= 0x9FFF || 0xFE00 <= addr <= 0xFE9F || Registers::mapped(addr)
    }

    pub open spec fn read(self, addr: u16) -> u8 {
        if addr <= 0x9FFF {
            self.vram.read(addr)
        } else if addr <= 0xFE9F {
            self.oam[addr - 0xFE00]
        } else {
            self.registers.value(addr)
        }
    }

    pub open spec fn write(self, addr: u16, value: u8) -> PpuView {
        if addr <= 0x9FFF {
            PpuView { vram: self.vram.write(addr, value), ..self }
        } else if addr <= 0xFE9F {
            PpuView { oam: self.oam.update(addr - 0xFE00, value), ..self }
        } else {
            PpuView { registers: self.registers.after_write(addr, value), ..self }
        }
    }

    /// A picture unit with everything zero.
    pub open spec fn blank(cgb: bool) -> PpuView {
        PpuView {
            vram: VramView::blank(cgb),
            oam: Seq::new(160, |i: int| 0u8),
            registers: Registers::zero(),
        }
    }
}

impl View for Ppu {
    type V = PpuView;

    open spec fn view(&self) -> PpuView {
        PpuView { vram: self.vram@, oam: self.oam@, registers: self.registers }
    }
}

impl Ppu {
    pub const STAT_ADDR: u16 = 0xFF41;

    pub const LY_ADDR: u16 = 0xFF44;

    /// Duration of a dot in nanoseconds.
    pub const DOT_DURATION_NS: u32 = 238;

    pub const DOTS_PER_LINE: u32 = 456;

    pub const LINES_PER_FRAME: u32 = 154;

    pub const VBLANK_START_LINE: u8 = 144;

    pub open spec fn wf(&self) -> bool {
        self.vram.wf()
    }

    pub fn new(cgb: bool) -> (ppu: Ppu)
        ensures
            ppu.wf(),
            ppu@ == PpuView::blank(cgb),
    {
        let ppu = Self {
            vram: Vram::new(cgb),
            oam: [0u8; 160],
            registers: Registers {
                lcdc: 0,
                stat: 0,
                scy: 0,
                scx: 0,
                ly: 0,
                lyc: 0,
                wy: 0,
                wx: 0,
                bcps: 0,
                bcpd: 0,
                ocps: 0,
                ocpd: 0,
                oam_enabled: false,
                vblank_enabled: false,
                hblank_enabled: false,
                ly_enabled: false,
            },
        };
        assert(ppu.oam@ =~= Seq::new(160, |i: int| 0u8));
        ppu
    }

    /// Update the PPU status registers based on current cycle and cycle
    /// time.
    ///
    /// Returned tuple contains two interrupt flags: (Vblank, LcdStat).
    pub fn update(&mut self, cycle: u32, cycle_time: u32) -> (signals: (bool, bool))
        requires
            old(self).wf(),
            cycle_time >= 238,
        ensures
            final(self).wf(),
            final(self)@ == (PpuView {
                registers: old(self).registers.after_update(cycle, cycle_time).registers,
                ..old(self)@
            }),
            signals.0 == old(self).registers.after_update(cycle, cycle_time).vblank,
            signals.1 == old(self).registers.after_update(cycle, cycle_time).stat,
    {
        self.registers.update(cycle, cycle_time)
    }

    pub fn vram(&self) -> (vram: &Vram)
        ensures
            *vram == self.vram,
    {
        &self.vram
    }

    pub fn vram_mut(&mut self) -> (vram: &mut Vram)
        ensures
            *vram == old(self).vram,
            *final(self) == (Ppu { vram: *final(vram), ..*old(self) }),
    {
        &mut self.vram
    }
}

impl MemoryRead<u16, u8> for Ppu {
    open spec fn readable(&self, addr: u16) -> bool {
        self.wf() && PpuView::mapped(addr)
    }

    open spec fn peek(&self, addr: u16) -> u8 {
        self@.read(addr)
    }

    fn read(&self, addr: u16) -> (value: u8) {
        if Vram::BASE_ADDR <= addr && addr <= Vram::LAST_ADDR {
            self.vram.read(addr)
        } else if 0xFE00 <= addr && addr <= 0xFE9F {
            let idx = (addr as usize) - 0xFE00;
            self.oam[idx]
        } else {
            self.registers.read(addr)
        }
    }
}

impl MemoryWrite<u16, u8> for Ppu {
    open spec fn writable(&self, addr: u16, value: u8) -> bool {
        self.wf() && PpuView::mapped(addr)
    }

    open spec fn written(&self, addr: u16, value: u8, after: &Self) -> bool {
        after.wf() && after@ == self@.write(addr, value)
    }

    fn write(&mut self, addr: u16, value: u8) {
        if Vram::BASE_ADDR <= addr && addr <= Vram::LAST_ADDR {
            self.vram.write(addr, value);
        } else if 0xFE00 <= addr && addr <= 0xFE9F {
            let idx = (addr as usize) - 0xFE00;
            self.oam[idx] = value;
        } else {
            self.registers.write(addr, value);
        }
    }
}

} // verus!
