//! The cartridge controller and memory bus of a Game Boy / Game Boy Color,
//! with the timer, the LCD status tracker and the real-time clock that
//! sit on the bus.
//!
//! The processor's instructions are run by the program that embeds this
//! library; so is every access to files. The library takes what was read
//! from disk as bytes and keeps account of what is to be written.

use vstd::prelude::*;

pub mod cartridge;
pub mod cpu;
pub mod error;
pub mod joypad;
pub mod memory;
pub mod ppu;
pub mod rtc;

use crate::cartridge::Cartridge;
use crate::cpu::Cpu;
use crate::cpu::CpuView;
use crate::cpu::Interrupt;
use crate::error::Error;
use crate::joypad::Joypad;
use crate::joypad::JoypadEvent;
use crate::memory::MemoryBusView;
use crate::memory::MemoryWrite;
use crate::ppu::Ppu;

verus! {

/// The machine: the bus with everything on it, and the processor's state
/// as far as the bus and the embedding program share it.
pub struct Gameboy {
    pub cpu: Cpu,
}

/// [`String::push`] appends the character to the end of the string.
#[verifier::external_body]
fn push_char(text: &mut String, c: char)
    ensures
        final(text)@ == old(text)@.push(c),
{
    text.push(c)
}

/// The bus once the joypad has taken each of `events`, first to last, and
/// the joypad interrupt has been raised for each that asks for it.
pub open spec fn after_events(bus: MemoryBusView, events: Seq<JoypadEvent>) -> MemoryBusView
    decreases events.len(),
{
    if events.len() == 0 {
        bus
    } else {
        let before = after_events(bus, events.drop_last());
        let joypad: Joypad = before.io.joypad;
        let taken = MemoryBusView {
            io: crate::memory::IoView { joypad: joypad.after_event(events.last()), ..before.io },
            ..before
        };
        if joypad.interrupts(events.last()) {
            taken.trigger_interrupt(Interrupt::Joypad)
        } else {
            taken
        }
    }
}

impl View for Gameboy {
    type V = CpuView;

    open spec fn view(&self) -> CpuView {
        self.cpu@
    }
}

impl Gameboy {
    /// Frame duration, in ns: a frame rate of 59.7 Hz.
    pub const FRAME_DURATION: u64 = 16_750_418;

    pub open spec fn wf(&self) -> bool {
        self.cpu.wf()
    }

    /// Whether this machine is well formed.
    pub fn is_wf(&self) -> (b: bool)
        ensures
            b == self.wf(),
    {
        self.cpu.is_wf()
    }

    /// Cycles that make a dot of the LCD: one at regular speed, two at
    /// double speed.
    pub open spec fn cycles_per_dot(speed: bool) -> u32 {
        if speed {
            2
        } else {
            1
        }
    }

    /// The bus once the processor has run an instruction of
    /// `cycles_taken` cycles: the bus has taken its step and the
    /// interrupts that the step asks for are raised.
    pub open spec fn bus_after(bus: MemoryBusView, cycles_taken: u32) -> MemoryBusView {
        let dot_time = (238 * Self::cycles_per_dot(bus.io.speed())) as u32;
        bus.step(cycles_taken, dot_time).raise(bus.pending(cycles_taken, dot_time))
    }

    /// Initialize the emulator with a cartridge.
    pub fn init(cartridge: Cartridge, trace: bool) -> (r: Result<Gameboy, Error>)
        ensures
            match r {
                Ok(gameboy) => cartridge.fault() is None && gameboy.wf() && gameboy@ == (CpuView {
                    memory: MemoryBusView::around(cartridge.controller()),
                    stopped: false,
                    trace,
                }),
                Err(e) => cartridge.fault() == Some(e),
            },
    {
        match Cpu::from_cartridge(cartridge, trace) {
            Ok(cpu) => Ok(Self { cpu }),
            Err(e) => Err(e),
        }
    }

    /// Figure out the number of clock cycles we can execute in a single
    /// frame.
    pub fn cycles_per_frame(speed: bool) -> (cycles: u32)
        ensures
            cycles == Gameboy::FRAME_DURATION as int / Cpu::spec_cycle_time(speed) as int,
    {
        let cycle_time = Cpu::cycle_time(speed);
        Self::FRAME_DURATION as u32 / cycle_time
    }

    /// Runs the machine for the step that follows an instruction of
    /// `cycles_taken` cycles: the bus takes its step, the interrupts that
    /// it asks for are raised and, if the processor has stopped, an armed
    /// speed switch is carried out, the divider is reset and the processor
    /// runs again.
    ///
    /// Returns the cycles consumed.
    pub fn step(&mut self, cycles_taken: u32) -> (cycles: u32)
        requires
            old(self).wf(),
        ensures
            final(self).wf(),
            cycles == cycles_taken,
            final(self)@ == (CpuView {
                memory: if old(self)@.stopped {
                    Gameboy::bus_after(old(self)@.memory, cycles_taken).stop().write(0xFF04, 0)
                } else {
                    Gameboy::bus_after(old(self)@.memory, cycles_taken)
                },
                stopped: false,
                ..old(self)@
            }),
    {
        let dot_time = if self.cpu.speed() {
            2 * Ppu::DOT_DURATION_NS
        } else {
            Ppu::DOT_DURATION_NS
        };
        let interrupts = self.cpu.memory.step(cycles_taken, dot_time);
        let ghost stepped = self.cpu.memory@;
        let mut i: usize = 0;
        assert(interrupts@.subrange(0, 0) =~= Seq::<Interrupt>::empty());
        while i < interrupts.len()
            invariant
                i <= interrupts@.len(),
                self.cpu.wf(),
                self.cpu.stopped == old(self).cpu.stopped,
                self.cpu.trace == old(self).cpu.trace,
                self.cpu.memory@ == stepped.raise(interrupts@.subrange(0, i as int)),
            decreases interrupts@.len() - i,
        {
            assert(interrupts@.subrange(0, i + 1).drop_last() =~= interrupts@.subrange(0, i as int));
            self.cpu.trigger_interrupt(interrupts[i]);
            i += 1;
        }
        assert(interrupts@.subrange(0, i as int) =~= interrupts@);
        if self.cpu.stopped {
            self.cpu.memory.stop();
            self.cpu.memory.write(0xFF04u16, 0u8);
            self.cpu.stopped = false;
        }
        cycles_taken
    }

    /// Hands the button events to the joypad, first to last, and raises
    /// the joypad interrupt for each that asks for it.
    pub fn update_joypad(&mut self, joypad_events: Option<&[JoypadEvent]>)
        requires
            old(self).wf(),
        ensures
            final(self).wf(),
            final(self)@ == (CpuView {
                memory: match joypad_events {
                    Some(events) => after_events(old(self)@.memory, events@),
                    None => old(self)@.memory,
                },
                ..old(self)@
            }),
    {
        if let Some(events) = joypad_events {
            let mut i: usize = 0;
            assert(events@.subrange(0, 0) =~= Seq::<JoypadEvent>::empty());
            while i < events.len()
                invariant
                    i <= events@.len(),
                    self.cpu.wf(),
                    self.cpu.stopped == old(self).cpu.stopped,
                    self.cpu.trace == old(self).cpu.trace,
                    self.cpu.memory@ == after_events(
                        old(self)@.memory,
                        events@.subrange(0, i as int),
                    ),
                decreases events@.len() - i,
            {
                assert(events@.subrange(0, i + 1).drop_last() =~= events@.subrange(0, i as int));
                if self.cpu.memory.io.joypad.handle_event(&events[i]) {
                    self.cpu.trigger_interrupt(Interrupt::Joypad);
                }
                i += 1;
            }
            assert(events@.subrange(0, i as int) =~= events@);
        }
    }

    /// Insert a new cartridge and reset the emulator. A cartridge that
    /// no controller can be made of is refused, and nothing changes.
    pub fn insert(&mut self, cartridge: Cartridge) -> (r: Result<(), Error>)
        requires
            old(self).wf(),
        ensures
            final(self).wf(),
            match r {
                Ok(()) => cartridge.fault() is None && final(self)@ == (CpuView {
                    memory: MemoryBusView::around(cartridge.controller()),
                    stopped: false,
                    trace: false,
                }),
                Err(e) => cartridge.fault() == Some(e) && final(self)@ == old(self)@,
            },
    {
        match Cpu::from_cartridge(cartridge, false) {
            Ok(cpu) => {
                self.cpu = cpu;
                Ok(())
            },
            Err(e) => Err(e),
        }
    }

    /// Reset the emulator.
    pub fn reset(&mut self)
        requires
            old(self).wf(),
        ensures
            final(self).wf(),
            final(self)@ == (CpuView {
                memory: old(self)@.memory.reset(),
                stopped: false,
                ..old(self)@
            }),
    {
        self.cpu.reset();
    }

    pub fn cpu(&mut self) -> (cpu: &mut Cpu)
        ensures
            *cpu == old(self).cpu,
            *final(self) == (Gameboy { cpu: *final(cpu) }),
    {
        &mut self.cpu
    }

    pub fn speed(&self) -> (b: bool)
        ensures
            b == self@.memory.io.speed(),
    {
        self.cpu.speed()
    }

    /// Returns a String containing the serial output of this Gameboy _so
    /// far_, each byte as the character of its number.
    ///
    /// In other words, this output is cumulative and contains every
    /// character logged to serial since the start of Gameboy.
    pub fn serial_output(&self) -> (text: String)
        ensures
            text@ == self@.memory.io.serial_buffer.map_values(|byte: u8| byte as char),
    {
        let buffer = self.cpu.memory.io.serial_buffer();
        let mut text = String::new();
        let mut i: usize = 0;
        while i < buffer.len()
            invariant
                i <= buffer@.len(),
                text@ == buffer@.subrange(0, i as int).map_values(|byte: u8| byte as char),
            decreases buffer@.len() - i,
        {
            push_char(&mut text, buffer[i] as char);
            assert(buffer@.subrange(0, i + 1).map_values(|byte: u8| byte as char)
                =~= buffer@.subrange(0, i as int).map_values(|byte: u8| byte as char).push(
                buffer@[i as int] as char,
            ));
            i += 1;
        }
        assert(buffer@.subrange(0, i as int) =~= buffer@);
        text
    }
}

} // verus!
