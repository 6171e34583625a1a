use vstd::prelude::*;

use crate::bits::lemma_bit_laws;
use crate::memory::MemoryAccess;

verus! {

/// The timer: the divider (DIV, 0xFF04), the counter (TIMA, 0xFF05), the modulo (TMA, 0xFF06)
/// and the control register (TAC, 0xFF07).
#[derive(Debug)]
pub struct Timer {
    pub is_enabled: bool,
    /// Clocks per counter increment: 16, 64, 256 or 1024.
    pub step: u32,
    pub div: u8,
    pub counter: u8,
    pub modulo: u8,
    pub div_clocks: u32,
    pub clocks: u32,
    pub interrupt: u8,
}

/// The clock divisor that the two low bits of TAC select.
pub open spec fn spec_step_for(value: u8) -> u32 {
    if value & 0x03 == 1 {
        16
    } else if value & 0x03 == 2 {
        64
    } else if value & 0x03 == 3 {
        256
    } else {
        1024
    }
}

/// The TAC bits that read back for a clock divisor.
pub open spec fn spec_step_code(step: u32) -> u8 {
    if step == 16 {
        1
    } else if step == 64 {
        2
    } else if step == 256 {
        3
    } else {
        0
    }
}

impl Timer {
    /// The counter after one increment: on overflow it is reloaded from the modulo and the
    /// timer interrupt is requested.
    pub open spec fn spec_increment(self) -> Timer {
        if self.counter == 0xFF {
            Timer { counter: self.modulo, interrupt: self.interrupt | 0x04, ..self }
        } else {
            Timer { counter: (self.counter + 1) as u8, ..self }
        }
    }

    /// The timer after its pending counter clocks `clocks` are spent in whole steps.
    pub open spec fn spec_run_counter(self, clocks: nat) -> Timer
        decreases clocks,
    {
        if self.step == 0 || clocks < self.step {
            Timer { clocks: clocks as u32, ..self }
        } else {
            self.spec_increment().spec_run_counter((clocks - self.step) as nat)
        }
    }

    /// Running the counter does not depend on the pending clock count it starts from.
    pub proof fn lemma_run_counter_from_any_clocks(self, c: u32, clocks: nat)
        ensures
            (Timer { clocks: c, ..self }).spec_run_counter(clocks) == self.spec_run_counter(clocks),
        decreases clocks,
    {
        if self.step == 0 || clocks < self.step {
        } else {
            let t = Timer { clocks: c, ..self };
            assert(t.spec_increment() == Timer { clocks: c, ..self.spec_increment() });
            self.spec_increment().lemma_run_counter_from_any_clocks(c, (clocks - self.step) as nat);
        }
    }

    /// The timer after `clocks` clocks.
    pub open spec fn spec_sync(self, clocks: u32) -> Timer {
        let total = self.div_clocks + clocks;
        let t = Timer {
            div: ((self.div + total / 256) % 256) as u8,
            div_clocks: (total % 256) as u32,
            ..self
        };
        if self.is_enabled {
            t.spec_run_counter((self.clocks + clocks) as nat)
        } else {
            t
        }
    }

    /// The clock divisor is valid and the pending clock counts stay below the longest period.
    pub open spec fn wf(&self) -> bool {
        &&& (self.step == 16 || self.step == 64 || self.step == 256 || self.step == 1024)
        &&& self.div_clocks < 256
        &&& self.clocks < 1024
    }

    /// Advances the timer by `clocks` clocks.
    pub fn sync(&mut self, clocks: u32)
        requires
            old(self).wf(),
            clocks <= u32::MAX - 1024,
        ensures
            final(self).wf(),
            *final(self) == old(self).spec_sync(clocks),
    {
        let ghost start = *self;
        self.div_clocks = self.div_clocks + clocks;
        let ghost total = self.div_clocks as int;
        while self.div_clocks >= 256
            invariant
                (self.div + self.div_clocks / 256) % 256 == (start.div + total / 256) % 256,
                self.div_clocks % 256 == total % 256,
                self.div_clocks <= total,
                self.is_enabled == start.is_enabled,
                self.step == start.step,
                self.counter == start.counter,
                self.modulo == start.modulo,
                self.clocks == start.clocks,
                self.interrupt == start.interrupt,
            decreases self.div_clocks,
        {
            self.div = self.div.wrapping_add(1);
            self.div_clocks = self.div_clocks - 256;
        }
        let ghost mid = *self;
        assert(mid == Timer {
            div: ((start.div + total / 256) % 256) as u8,
            div_clocks: (total % 256) as u32,
            ..start
        });

        if self.is_enabled {
            self.clocks = self.clocks + clocks;
            let ghost pending = self.clocks as nat;
            proof {
                mid.lemma_run_counter_from_any_clocks(self.clocks, pending);
            }
            while self.clocks >= self.step
                invariant
                    self.step == start.step,
                    self.wf_step(),
                    self.div == mid.div,
                    self.div_clocks == mid.div_clocks,
                    self.is_enabled == mid.is_enabled,
                    self.modulo == mid.modulo,
                    self.spec_run_counter(self.clocks as nat) == mid.spec_run_counter(pending),
                decreases self.clocks,
            {
                let ghost old_iter = *self;
                self.counter = self.counter.wrapping_add(1);

                if self.counter == 0 {
                    self.counter = self.modulo;
                    self.interrupt = self.interrupt | 0x04;
                }
                let ghost before = *self;
                self.clocks = self.clocks - self.step;
                proof {
                    let prev = Timer { clocks: before.clocks, ..*self };
                    assert(prev == old_iter.spec_increment());
                    self.lemma_run_counter_from_any_clocks(before.clocks, self.clocks as nat);
                }
            }
        }
    }

    /// The clock divisor is one of the four the hardware has.
    pub open spec fn wf_step(&self) -> bool {
        self.step == 16 || self.step == 64 || self.step == 256 || self.step == 1024
    }
}

impl View for Timer {
    type V = Timer;

    open spec fn view(&self) -> Timer {
        *self
    }
}

impl MemoryAccess for Timer {
    open spec fn inv(v: Timer) -> bool {
        v.wf()
    }

    open spec fn readable(v: Timer, addr: u16) -> bool {
        0xFF04 <= addr <= 0xFF07
    }

    open spec fn read_spec(v: Timer, addr: u16) -> u8 {
        if addr == 0xFF04 {
            v.div
        } else if addr == 0xFF05 {
            v.counter
        } else if addr == 0xFF06 {
            v.modulo
        } else {
            (if v.is_enabled {
                0x04u8
            } else {
                0x00u8
            }) | spec_step_code(v.step)
        }
    }

    open spec fn writable(v: Timer, addr: u16, value: u8) -> bool {
        0xFF04 <= addr <= 0xFF07
    }

    open spec fn write_spec(v: Timer, addr: u16, value: u8) -> Timer {
        if addr == 0xFF04 {
            Timer { div: 0, ..v }
        } else if addr == 0xFF05 {
            Timer { counter: value, ..v }
        } else if addr == 0xFF06 {
            Timer { modulo: value, ..v }
        } else {
            Timer { is_enabled: value & 0x04 != 0, step: spec_step_for(value), ..v }
        }
    }

    fn mem_read(&self, addr: u16) -> (r: u8) {
        match addr {
            0xFF04 => self.div,
            0xFF05 => self.counter,
            0xFF06 => self.modulo,
            _ => {
                (if self.is_enabled {
                    0x04
                } else {
                    0x00
                }) | (match self.step {
                    16 => 1,
                    64 => 2,
                    256 => 3,
                    _ => 0,
                })
            },
        }
    }

    fn mem_write(&mut self, addr: u16, value: u8) {
        match addr {
            0xFF04 => self.div = 0,
            0xFF05 => self.counter = value,
            0xFF06 => self.modulo = value,
            _ => {
                self.is_enabled = value & 0x04 != 0;
                self.step = match value & 0x03 {
                    1 => 16,
                    2 => 64,
                    3 => 256,
                    _ => 1024,
                };
            },
        }
    }
}

impl Default for Timer {
    fn default() -> (r: Timer)
        ensures
            r.wf(),
            !r.is_enabled,
            r.step == 256,
            r.div == 0,
            r.counter == 0,
            r.modulo == 0,
            r.div_clocks == 0,
            r.clocks == 0,
            r.interrupt == 0,
    {
        Timer {
            is_enabled: false,
            step: 256,
            div: 0,
            counter: 0,
            modulo: 0,
            div_clocks: 0,
            clocks: 0,
            interrupt: 0,
        }
    }
}

/// Writing TAC (0xFF07) turns the timer on or off with bit 2 and picks its period with the two
/// low bits: 1024, 16, 64 or 256 clocks for 0, 1, 2 and 3; TAC then reads back the three bits
/// written, and the counter, modulo and divider stay as they were.
pub proof fn lemma_tac_write(t: Timer, value: u8)
    ensures
        ({
            let w = Timer::write_spec(t, 0xFF07, value);
            &&& w.is_enabled == (value & 0x04 != 0)
            &&& w.step == if value & 0x03 == 0 {
                1024u32
            } else if value & 0x03 == 1 {
                16u32
            } else if value & 0x03 == 2 {
                64u32
            } else {
                256u32
            }
            &&& Timer::read_spec(w, 0xFF07) == value & 0x07
            &&& w.counter == t.counter
            &&& w.modulo == t.modulo
            &&& w.div == t.div
        }),
{
    lemma_bit_laws();
    assert(value & 0x03 < 4) by {
        crate::bits::lemma_masks();
    }
}

/// An enabled timer at the start of a period, whose counter is not about to overflow, counts
/// one when a whole period has passed, and not one clock before.
pub proof fn lemma_timer_period(t: Timer)
    requires
        t.wf(),
        t.is_enabled,
        t.clocks == 0,
        t.counter < 0xFF,
    ensures
        t.spec_sync((t.step - 1) as u32).counter == t.counter,
        t.spec_sync(t.step).counter == t.counter + 1,
{
    reveal_with_fuel(Timer::spec_run_counter, 2);
}

} // verus!
