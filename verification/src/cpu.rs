//! The processor's side of the bus: the interrupts it takes and the state
//! that the machine around it reads.

use vstd::prelude::*;
use crate::cartridge::Cartridge;
use crate::error::Error;
use crate::memory::MemoryBus;
use crate::memory::MemoryBusView;

verus! {

/// The five interrupts, in the order in which they are delivered.
#[derive(Clone, Copy, Debug, PartialEq, Eq, Structural)]
pub enum Interrupt {
    VBlank,
    LcdStat,
    Timer,
    Serial,
    Joypad,
}

impl Interrupt {
    /// The interrupt's bit in the flag and enable registers.
    pub open spec fn bit(self) -> nat {
        match self {
            Interrupt::VBlank => 0,
            Interrupt::LcdStat => 1,
            Interrupt::Timer => 2,
            Interrupt::Serial => 3,
            Interrupt::Joypad => 4,
        }
    }

    /// The mask of that bit.
    pub open spec fn mask(self) -> u8 {
        match self {
            Interrupt::VBlank => 0x01,
            Interrupt::LcdStat => 0x02,
            Interrupt::Timer => 0x04,
            Interrupt::Serial => 0x08,
            Interrupt::Joypad => 0x10,
        }
    }

    pub fn to_mask(self) -> (mask: u8)
        ensures
            mask == self.mask(),
    {
        match self {
            Interrupt::VBlank => 0x01,
            Interrupt::LcdStat => 0x02,
            Interrupt::Timer => 0x04,
            Interrupt::Serial => 0x08,
            Interrupt::Joypad => 0x10,
        }
    }
}

/// The processor as the machine around it sees it. The instructions
/// themselves are run by the program that embeds this library.
pub struct Cpu {
    pub memory: MemoryBus,
    /// Set when the processor has run a STOP, until the machine has taken
    /// its step after it.
    pub stopped: bool,
    /// Whether the embedding program is to log each instruction.
    pub trace: bool,
}

/// What a [`Cpu`] holds.
pub struct CpuView {
    pub memory: MemoryBusView,
    pub stopped: bool,
    pub trace: bool,
}

proof fn lemma_bit_masks()
    by (bit_vector)
    ensures
        1u8 << 0u8 == 0x01,
        1u8 << 1u8 == 0x02,
        1u8 << 2u8 == 0x04,
        1u8 << 3u8 == 0x08,
        1u8 << 4u8 == 0x10,
{
}

/// An interrupt's mask has the interrupt's bit set and no other.
pub proof fn lemma_mask_is_bit(interrupt: Interrupt)
    ensures
        interrupt.mask() == 1u8 << (interrupt.bit() as u8),
{
    lemma_bit_masks();
}

impl View for Cpu {
    type V = CpuView;

    open spec fn view(&self) -> CpuView {
        CpuView { memory: self.memory@, stopped: self.stopped, trace: self.trace }
    }
}

impl Cpu {
    /// Duration of a cycle at regular speed, in nanoseconds.
    pub const CYCLE_TIME: u32 = 238;

    pub open spec fn wf(&self) -> bool {
        self.memory.wf()
    }

    /// Whether this processor's bus is well formed.
    pub fn is_wf(&self) -> (b: bool)
        ensures
            b == self.wf(),
    {
        self.memory.is_wf()
    }

    /// Duration of a cycle in nanoseconds: half as long at double speed.
    pub open spec fn spec_cycle_time(speed: bool) -> u32 {
        if speed {
            119
        } else {
            238
        }
    }

    pub fn from_cartridge(cartridge: Cartridge, trace: bool) -> (r: Result<Cpu, Error>)
        ensures
            match r {
                Ok(cpu) => cartridge.fault() is None && cpu.wf() && cpu@ == (CpuView {
                    memory: MemoryBusView::around(cartridge.controller()),
                    stopped: false,
                    trace,
                }),
                Err(e) => cartridge.fault() == Some(e),
            },
    {
        match MemoryBus::from_cartridge(cartridge) {
            Ok(memory) => Ok(Self { memory, stopped: false, trace }),
            Err(e) => Err(e),
        }
    }

    #[verifier::when_used_as_spec(spec_cycle_time)]
    pub fn cycle_time(speed: bool) -> (ns: u32)
        ensures
            ns == Cpu::spec_cycle_time(speed),
    {
        if speed {
            Self::CYCLE_TIME / 2
        } else {
            Self::CYCLE_TIME
        }
    }

    /// Current speed: `false` regular, `true` double.
    pub fn speed(&self) -> (b: bool)
        ensures
            b == self@.memory.io.speed(),
    {
        self.memory.io.speed()
    }

    /// Raises an interrupt.
    pub fn trigger_interrupt(&mut self, interrupt: Interrupt)
        requires
            old(self).wf(),
        ensures
            final(self).wf(),
            final(self)@ == (CpuView {
                memory: old(self)@.memory.trigger_interrupt(interrupt),
                ..old(self)@
            }),
    {
        self.memory.trigger_interrupt(interrupt);
    }

    /// Reset the processor: the bus is as at power-on, the cartridge RAM
    /// is put in anew.
    pub fn reset(&mut self)
        requires
            old(self).wf(),
        ensures
            final(self).wf(),
            final(self)@ == (CpuView {
                memory: old(self)@.memory.reset(),
                stopped: false,
                ..old(self)@
            }),
    {
        self.memory.reset();
        self.stopped = false;
    }
}

} // verus!
