use vstd::prelude::*;

use crate::emulator::Emulator;
use crate::memory::{
    clock_period, timer_period, INTERRUPT_REQUEST, TIMER_ADDRESS, TIMER_CONTROLLER,
    TIMER_MODULATOR,
};

verus! {

/// What the timer reads and changes.
pub struct TimerView {
    pub divider: u16,
    pub counter: u32,
    pub tima: u8,
    pub tma: u8,
    pub tac: u8,
    pub iflag: u8,
}

/// One T-state of the timer: the divider always counts; with TAC bit 2 set, TIMA counts once
/// per period, and on overflow is reloaded from TMA and raises the Timer interrupt.
pub open spec fn timer_step(t: TimerView) -> TimerView {
    let divider = ((t.divider + 1) % 0x10000) as u16;
    if t.tac & 4 == 0 {
        TimerView { divider, ..t }
    } else if t.counter > 1 {
        TimerView { divider, counter: (t.counter - 1) as u32, ..t }
    } else if t.tima == 0xFF {
        TimerView { divider, counter: timer_period(t.tac), tima: t.tma, iflag: t.iflag | 4, ..t }
    } else {
        TimerView { divider, counter: timer_period(t.tac), tima: (t.tima + 1) as u8, ..t }
    }
}

pub open spec fn timer_run(t: TimerView, n: nat) -> TimerView
    decreases n,
{
    if n == 0 {
        t
    } else {
        timer_step(timer_run(t, (n - 1) as nat))
    }
}

impl Emulator {
    pub open spec fn timer_view(&self) -> TimerView {
        TimerView {
            divider: self.memory.divider,
            counter: self.memory.timer_counter,
            tima: self.memory.rom@[0xFF05],
            tma: self.memory.rom@[0xFF06],
            tac: self.memory.rom@[0xFF07],
            iflag: self.memory.rom@[0xFF0F],
        }
    }

    /// Only the timer's state differs between `self` and `o`.
    pub open spec fn same_but_timer(&self, o: &Emulator) -> bool {
        &&& self.memory.cart == o.memory.cart
        &&& self.memory.mbc == o.memory.mbc
        &&& self.memory.ram_banks@ == o.memory.ram_banks@
        &&& self.memory.pressed == o.memory.pressed
        &&& self.memory.rom@.len() == o.memory.rom@.len()
        &&& forall|k: int|
            0 <= k < 0x10000 && k != 0xFF05 && k != 0xFF0F ==> #[trigger] self.memory.rom@[k]
                == o.memory.rom@[k]
        &&& self.cpu == o.cpu
        &&& self.scanline_count == o.scanline_count
        &&& self.screen_buffer == o.screen_buffer
        &&& self.carry == o.carry
        &&& self.clock == o.clock
    }

    /// TAC bits 1-0.
    pub fn get_clock_freq(&self) -> (r: u8)
        requires
            self.wf(),
        ensures
            r == self.memory.rom@[0xFF07] & 3,
    {
        self.memory.read_force(TIMER_CONTROLLER) & 3
    }

    /// TAC bit 2.
    pub fn clock_enabled(&self) -> (r: bool)
        requires
            self.wf(),
        ensures
            r == (self.memory.rom@[0xFF07] & 4 != 0),
    {
        self.memory.read_force(TIMER_CONTROLLER) & 4 != 0
    }

    /// Restarts the count to the next TIMA increment for the current frequency.
    fn set_clock_freq(&mut self)
        requires
            old(self).wf(),
        ensures
            final(self).wf(),
            final(self).timer_view() == (TimerView {
                counter: timer_period(old(self).memory.rom@[0xFF07]),
                ..old(self).timer_view()
            }),
            final(self).same_but_timer(old(self)),
            final(self).memory.rom@ == old(self).memory.rom@,
    {
        let tac = self.memory.read_force(TIMER_CONTROLLER);
        self.memory.timer_counter = clock_period(tac);
    }

    /// The divider counts every T-state; DIV is its high byte.
    fn handle_divider_register(&mut self)
        requires
            old(self).wf(),
        ensures
            final(self).wf(),
            final(self).timer_view() == (TimerView {
                divider: ((old(self).memory.divider + 1) % 0x10000) as u16,
                ..old(self).timer_view()
            }),
            final(self).same_but_timer(old(self)),
            final(self).memory.rom@ == old(self).memory.rom@,
    {
        self.memory.divider = self.memory.divider.wrapping_add(1);
    }

    /// One T-state of the timer.
    fn timer_tick(&mut self)
        requires
            old(self).wf(),
        ensures
            final(self).wf(),
            final(self).timer_view() == timer_step(old(self).timer_view()),
            final(self).same_but_timer(old(self)),
    {
        self.handle_divider_register();
        if self.clock_enabled() {
            if self.memory.timer_counter > 1 {
                self.memory.timer_counter = self.memory.timer_counter - 1;
            } else {
                self.set_clock_freq();
                let tima = self.memory.read_force(TIMER_ADDRESS);
                if tima == 0xFF {
                    let tma = self.memory.read_force(TIMER_MODULATOR);
                    self.memory.write_force(TIMER_ADDRESS, tma);
                    let req = self.memory.read_force(INTERRUPT_REQUEST);
                    self.memory.write_force(INTERRUPT_REQUEST, req | 4);
                } else {
                    self.memory.write_force(TIMER_ADDRESS, tima + 1);
                }
            }
        }
    }

    /// Runs the timer for `cycles` T-states.
    pub fn update_timers(&mut self, cycles: u32)
        requires
            old(self).wf(),
        ensures
            final(self).wf(),
            final(self).timer_view() == timer_run(old(self).timer_view(), cycles as nat),
            final(self).same_but_timer(old(self)),
    {
        let ghost start = *self;
        let mut i: u32 = 0;
        while i < cycles
            invariant
                self.wf(),
                i <= cycles,
                self.same_but_timer(&start),
                self.timer_view() == timer_run(start.timer_view(), i as nat),
            decreases cycles - i,
        {
            self.timer_tick();
            i = i + 1;
        }
    }
}

} // verus!
