//! A programmable interval timer with three counters, as far as the
//! machines need it: the control word can be written, the counters do not
//! count yet.

use vstd::prelude::*;

verus! {

/// Which byte of a counter the next access to it reads or writes.
#[derive(Debug, Clone, Copy, PartialEq, Eq, Structural)]
pub enum AccessMode {
    HighThenLow,
    AlwaysLow,
    AlwaysHigh,
    LowThenHigh,
}

/// One counter of the timer.
#[derive(Debug, Clone, Copy, PartialEq, Eq, Structural)]
pub struct PitCounter {
    pub timer_mode: u8,
    pub access_mode: AccessMode,
    pub count: u16,
    pub gate: bool,
    pub out: bool,
}

/// The two generations of the timer chip.
pub enum PitType {
    PIT8253,
    PIT8254,
}

/// The timer: three counters and the control word written last.
#[derive(Debug, Clone, Copy)]
pub struct PIT {
    pub counters: [PitCounter; 3],
    pub ctrl: u8,
}

impl PitCounter {
    /// A counter at power-up: mode 0, the full count, low byte first.
    pub open spec fn initial() -> PitCounter {
        PitCounter {
            timer_mode: 0,
            access_mode: AccessMode::LowThenHigh,
            count: 0xffff,
            gate: false,
            out: false,
        }
    }
}

impl PIT {
    /// Whether a write of `data` to the port `addr` is a control word that
    /// the timer takes: the port is the fourth of the timer's four, and the
    /// word is no read-back command.
    pub open spec fn takes(addr: u16, data: u8) -> bool {
        addr % 4 == 3 && data / 64 != 3
    }

    /// The timer after a write of `data` to the port `addr`: a control word
    /// is kept, any other write changes nothing.
    pub open spec fn written(self, addr: u16, data: u8) -> PIT {
        if PIT::takes(addr, data) {
            PIT { ctrl: data, ..self }
        } else {
            self
        }
    }

    /// The timer at power-up: three counters at their start, and no control
    /// word yet.
    pub open spec fn power_up() -> PIT {
        PIT {
            counters: [PitCounter::initial(), PitCounter::initial(), PitCounter::initial()],
            ctrl: 0,
        }
    }

    /// A timer at power-up.
    pub fn new() -> (pit: PIT)
        ensures
            pit == PIT::power_up(),
    {
        let counter = PitCounter {
            timer_mode: 0,
            access_mode: AccessMode::LowThenHigh,
            count: 0xffff,
            gate: false,
            out: false,
        };
        let pit = PIT { counters: [counter, counter, counter], ctrl: 0 };
        assert(pit.counters =~= PIT::power_up().counters);
        pit
    }

    /// Lets `_cycles` cycles pass. The counters do not count yet, so the
    /// timer stays as it is.
    pub fn tick(&mut self, _cycles: usize)
        ensures
            *final(self) == *old(self),
    {
    }

    /// Reads the port `_addr`: zero, whatever the port.
    pub fn rb(&mut self, _addr: u16) -> (value: u8)
        ensures
            value == 0,
            *final(self) == *old(self),
    {
        0
    }

    /// Writes `data` to the port `addr`. Returns whether the timer took the
    /// write.
    pub fn wb(&mut self, addr: u16, data: u8) -> (taken: bool)
        ensures
            taken == PIT::takes(addr, data),
            *final(self) == old(self).written(addr, data),
    {
        if addr % 4 == 3 && data / 64 != 3 {
            self.ctrl = data;
            true
        } else {
            false
        }
    }
}

impl Default for PIT {
    fn default() -> (pit: PIT)
        ensures
            pit == PIT::power_up(),
    {
        PIT::new()
    }
}

} // verus!
