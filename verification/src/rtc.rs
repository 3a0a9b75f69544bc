//! The real-time clock of an MBC3 cartridge.

use vstd::prelude::*;

verus! {

/// The five clock registers.
#[derive(Clone, Copy, Debug, PartialEq, Eq, Structural)]
pub struct Clock {
    pub seconds: u8,
    pub minutes: u8,
    pub hours: u8,
    /// Low eight bits of the day counter.
    pub days_low: u8,
    /// Bit 0: top bit of the day counter. Bit 6: halt. Bit 7: the day
    /// counter has overflowed.
    pub days_high: u8,
}

impl Clock {
    /// The register that `index` (0x08 to 0x0C) selects.
    pub open spec fn register(self, index: u8) -> u8 {
        if index == 0x08 {
            self.seconds
        } else if index == 0x09 {
            self.minutes
        } else if index == 0x0A {
            self.hours
        } else if index == 0x0B {
            self.days_low
        } else {
            self.days_high
        }
    }

    /// This clock with `value` in the register that `index` selects.
    pub open spec fn with_register(self, index: u8, value: u8) -> Clock {
        if index == 0x08 {
            Clock { seconds: value, ..self }
        } else if index == 0x09 {
            Clock { minutes: value, ..self }
        } else if index == 0x0A {
            Clock { hours: value, ..self }
        } else if index == 0x0B {
            Clock { days_low: value, ..self }
        } else {
            Clock { days_high: value, ..self }
        }
    }

    pub open spec fn zero() -> Clock {
        Clock { seconds: 0, minutes: 0, hours: 0, days_low: 0, days_high: 0 }
    }

    pub fn get(&self, index: u8) -> (value: u8)
        ensures
            value == self.register(index),
    {
        if index == 0x08 {
            self.seconds
        } else if index == 0x09 {
            self.minutes
        } else if index == 0x0A {
            self.hours
        } else if index == 0x0B {
            self.days_low
        } else {
            self.days_high
        }
    }

    pub fn set(&mut self, index: u8, value: u8)
        ensures
            *final(self) == old(self).with_register(index, value),
    {
        if index == 0x08 {
            self.seconds = value;
        } else if index == 0x09 {
            self.minutes = value;
        } else if index == 0x0A {
            self.hours = value;
        } else if index == 0x0B {
            self.days_low = value;
        } else {
            self.days_high = value;
        }
    }
}

/// The clock with its latch: software writes the live registers and reads
/// the latched copy.
#[derive(Clone, Copy, Debug, PartialEq, Eq, Structural)]
pub struct Rtc {
    /// The registers that writes reach.
    pub live: Clock,
    /// The copy taken at the last latch, which reads return.
    pub latched: Clock,
    /// The register mapped into the cartridge RAM window, 0x08 to 0x0C.
    pub selected: u8,
    /// The last value written to the latch register.
    pub latch_write: u8,
}

impl Rtc {
    /// Mask of the halt flag in the upper day register.
    pub const HALT: u8 = 0x40;

    /// Mask of the day-counter overflow flag in the upper day register.
    pub const DAY_CARRY: u8 = 0x80;

    /// Length of the saved form.
    pub const SAVED_LEN: usize = 6;

    pub open spec fn wf(self) -> bool {
        0x08 <= self.selected <= 0x0C
    }

    pub open spec fn fresh() -> Rtc {
        Rtc { live: Clock::zero(), latched: Clock::zero(), selected: 0x08, latch_write: 0 }
    }

    pub open spec fn after_select(self, reg: u8) -> Rtc {
        Rtc { selected: reg, ..self }
    }

    /// A write of 1 that follows a write of 0 copies the live registers
    /// into the latch.
    pub open spec fn after_latch(self, value: u8) -> Rtc {
        Rtc {
            latched: if self.latch_write == 0 && value == 1 {
                self.live
            } else {
                self.latched
            },
            latch_write: value,
            ..self
        }
    }

    /// The latched copy of the selected register.
    pub open spec fn value(self) -> u8 {
        self.latched.register(self.selected)
    }

    pub open spec fn after_write(self, value: u8) -> Rtc {
        Rtc { live: self.live.with_register(self.selected, value), ..self }
    }

    /// The saved form: the five live registers, then the last latch write.
    pub open spec fn saved(self) -> Seq<u8> {
        seq![
            self.live.seconds,
            self.live.minutes,
            self.live.hours,
            self.live.days_low,
            self.live.days_high,
            self.latch_write,
        ]
    }

    /// The clock that a saved form restores: the registers and the latch
    /// write it holds, the latch showing the same registers.
    pub open spec fn restored(self, saved: Seq<u8>) -> Rtc {
        if saved.len() == 6 {
            let clock = Clock {
                seconds: saved[0],
                minutes: saved[1],
                hours: saved[2],
                days_low: saved[3],
                days_high: saved[4],
            };
            Rtc { live: clock, latched: clock, latch_write: saved[5], ..self }
        } else {
            self
        }
    }

    /// Whether this clock is well formed.
    pub fn is_wf(&self) -> (b: bool)
        ensures
            b == self.wf(),
    {
        0x08 <= self.selected && self.selected <= 0x0C
    }

    pub fn new() -> (rtc: Rtc)
        ensures
            rtc == Rtc::fresh(),
            rtc.wf(),
    {
        let zero = Clock { seconds: 0, minutes: 0, hours: 0, days_low: 0, days_high: 0 };
        Rtc { live: zero, latched: zero, selected: 0x08, latch_write: 0 }
    }

    /// Chooses the register that reads and writes reach.
    pub fn select(&mut self, reg: u8)
        requires
            0x08 <= reg <= 0x0C,
        ensures
            *final(self) == old(self).after_select(reg),
            final(self).wf(),
    {
        self.selected = reg;
    }

    /// Takes a write to the latch register.
    pub fn latch(&mut self, value: u8)
        ensures
            *final(self) == old(self).after_latch(value),
    {
        if self.latch_write == 0 && value == 1 {
            self.latched = self.live;
        }
        self.latch_write = value;
    }

    /// Reads the selected register, as last latched.
    pub fn read(&self) -> (value: u8)
        ensures
            value == self.value(),
    {
        self.latched.get(self.selected)
    }

    /// Writes the selected live register.
    pub fn write(&mut self, value: u8)
        ensures
            *final(self) == old(self).after_write(value),
    {
        self.live.set(self.selected, value);
    }

    /// Whether the clock is halted.
    pub fn halted(&self) -> (b: bool)
        ensures
            b == (self.live.days_high & Rtc::HALT != 0),
    {
        self.live.days_high & Self::HALT != 0
    }

    /// Whether the day counter has overflowed.
    pub fn day_carry(&self) -> (b: bool)
        ensures
            b == (self.live.days_high & Rtc::DAY_CARRY != 0),
    {
        self.live.days_high & Self::DAY_CARRY != 0
    }

    /// The bytes to keep beside the ROM so that the clock outlives a run.
    pub fn to_bytes(&self) -> (bytes: Vec<u8>)
        ensures
            bytes@ == self.saved(),
    {
        let mut bytes: Vec<u8> = Vec::new();
        bytes.push(self.live.seconds);
        bytes.push(self.live.minutes);
        bytes.push(self.live.hours);
        bytes.push(self.live.days_low);
        bytes.push(self.live.days_high);
        bytes.push(self.latch_write);
        assert(bytes@ =~= self.saved());
        bytes
    }

    /// Takes the clock back from its saved form. Bytes of any other length
    /// than the saved form's are passed over.
    pub fn restore(&mut self, saved: &[u8])
        ensures
            *final(self) == old(self).restored(saved@),
    {
        if saved.len() == Self::SAVED_LEN {
            let clock = Clock {
                seconds: saved[0],
                minutes: saved[1],
                hours: saved[2],
                days_low: saved[3],
                days_high: saved[4],
            };
            self.live = clock;
            self.latched = clock;
            self.latch_write = saved[5];
        }
    }
}

/// Saving a clock and restoring it gives back its registers and its last
/// latch write, whatever the clock restored into held.
pub proof fn lemma_saved_clock_round_trip(rtc: Rtc, into: Rtc)
    ensures
        into.restored(rtc.saved()).live == rtc.live,
        into.restored(rtc.saved()).latch_write == rtc.latch_write,
        into.restored(rtc.saved()).saved() == rtc.saved(),
{
}

} // verus!
