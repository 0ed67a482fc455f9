use vstd::prelude::*;

use crate::bits::tbit;
use crate::cartridge::{load_outcome, LoadError};
use crate::cpu::{execute_post, Cpu, Interrupt};
use crate::joypad::{joypad_byte, joypad_state, Inputs};
use crate::memory::{Memory, KEY_ADDRESS, MEMORY_SIZE};
use crate::ppu::{
    lemma_lines, lemma_run_add, lemma_run_position, ppu_run, same_position, screen_run, PpuView,
};
use crate::timer::{timer_run, TimerView};

verus! {

/// T-states in one frame: 154 lines of 456.
pub const FRAME_CYCLES: u32 = 70224;

/// T-states in one scanline.
pub const LINE_CYCLES: u32 = 456;

pub const SCREEN_WIDTH: usize = 160;
pub const SCREEN_HEIGHT: usize = 144;

/// Bytes in one framebuffer row: three (red, green, blue) per pixel.
pub const ROW_BYTES: usize = 480;

/// A whole Game Boy: CPU, memory bus with its peripherals, and the framebuffer.
pub struct Emulator {
    pub cpu: Cpu,
    pub memory: Memory,
    /// T-states left in the current scanline.
    pub scanline_count: u32,
    /// 144 rows of 160 pixels, three bytes (R, G, B) per pixel.
    pub screen_buffer: Vec<Vec<u8>>,
    /// T-states of the last instruction not yet handed to the timer and the PPU.
    pub carry: u32,
    /// T-states handed to the timer and the PPU since power-up, wrapping.
    pub clock: u64,
}

impl Emulator {
    pub open spec fn wf(&self) -> bool {
        &&& self.memory.wf()
        &&& self.cpu.wf()
        &&& 1 <= self.scanline_count <= LINE_CYCLES
        &&& self.screen_buffer@.len() == SCREEN_HEIGHT
        &&& forall|y: int| 0 <= y < SCREEN_HEIGHT ==> (#[trigger] self.screen_buffer@[y])@.len() == ROW_BYTES
        &&& self.carry <= 24
    }

    /// The framebuffer as rows of bytes.
    pub open spec fn screen_view(&self) -> Seq<Seq<u8>> {
        self.screen_buffer@.map_values(|r: Vec<u8>| r@)
    }

    /// Powers up a Game Boy with the given cartridge image.
    pub fn from_file(data: Vec<u8>) -> (r: Result<Emulator, LoadError>)
        ensures
            match load_outcome(data@) {
                Ok(m) => {
                    &&& r.is_ok()
                    &&& r.unwrap().wf()
                    &&& r.unwrap().memory.is_power_up(data@, m)
                    &&& r.unwrap().cpu == Cpu::spec_new()
                    &&& r.unwrap().scanline_count == LINE_CYCLES
                    &&& forall|y: int, i: int|
                        0 <= y < SCREEN_HEIGHT && 0 <= i < ROW_BYTES ==> #[trigger] r.unwrap().screen_view()[y][i] == 0
                    &&& r.unwrap().carry == 0
                    &&& r.unwrap().clock == 0
                },
                Err(e) => r == Err::<Emulator, LoadError>(e),
            },
    {
        let memory = match Memory::from_file(data) {
            Ok(m) => m,
            Err(e) => return Err(e),
        };
        let mut screen_buffer: Vec<Vec<u8>> = Vec::new();
        let mut y: usize = 0;
        while y < SCREEN_HEIGHT
            invariant
                y <= SCREEN_HEIGHT,
                screen_buffer@.len() == y,
                forall|k: int| 0 <= k < y ==> (#[trigger] screen_buffer@[k])@.len() == ROW_BYTES,
                forall|k: int, i: int|
                    0 <= k < y && 0 <= i < ROW_BYTES ==> #[trigger] screen_buffer@[k]@[i] == 0,
            decreases SCREEN_HEIGHT - y,
        {
            let row = vec![0u8; ROW_BYTES];
            proof {
                assert forall|i: int| 0 <= i < ROW_BYTES implies #[trigger] row@[i] == 0u8 by {
                    assert(vstd::pervasive::cloned(0u8, row@[i]));
                }
            }
            screen_buffer.push(row);
            y = y + 1;
        }
        let emu = Emulator {
            cpu: Cpu::new(),
            memory,
            scanline_count: LINE_CYCLES,
            screen_buffer,
            carry: 0,
            clock: 0,
        };
        Ok(emu)
    }

    /// What the CPU reads at `address`.
    pub fn read_memory(&self, address: usize) -> (r: u8)
        requires
            self.wf(),
            address < MEMORY_SIZE,
        ensures
            r == self.memory.spec_read(address as int),
    {
        self.memory.read(address)
    }

    /// A CPU write, with all its side effects (bank switching, DMA, timer and register rules).
    pub fn write_memory(&mut self, address: usize, data: u8)
        requires
            old(self).wf(),
            address < MEMORY_SIZE,
        ensures
            final(self).wf(),
            old(self).memory.write_post(&final(self).memory, address, data),
            final(self).cpu == old(self).cpu,
            final(self).scanline_count == old(self).scanline_count,
            final(self).screen_buffer == old(self).screen_buffer,
            final(self).carry == old(self).carry,
            final(self).clock == old(self).clock,
    {
        self.memory.write(address, data);
    }

    /// Register 0xFF00 as the CPU reads it.
    pub fn joypad_state(&self) -> (r: u8)
        requires
            self.wf(),
        ensures
            r == joypad_byte(self.memory.rom@[0xFF00], self.memory.pressed),
    {
        joypad_state(self.memory.read_force(KEY_ADDRESS), self.memory.pressed)
    }

    /// A button goes down; a fresh press of a button in a selected row raises Joypad.
    pub fn input_down(&mut self, input: Inputs)
        requires
            old(self).wf(),
        ensures
            final(self).wf(),
            final(self).memory.pressed == old(self).memory.pressed | input.spec_mask(),
            final(self).memory.rom@ == if old(self).memory.pressed & input.spec_mask() == 0
                && old(self).memory.rom@[0xFF00] & (1u8 << input.spec_select_location()) == 0 {
                old(self).memory.rom@.update(0xFF0F, old(self).memory.rom@[0xFF0F] | 0x10)
            } else {
                old(self).memory.rom@
            },
            final(self).cpu == old(self).cpu,
            final(self).memory.cart == old(self).memory.cart,
            final(self).memory.mbc == old(self).memory.mbc,
            final(self).memory.ram_banks@ == old(self).memory.ram_banks@,
            final(self).memory.divider == old(self).memory.divider,
            final(self).memory.timer_counter == old(self).memory.timer_counter,
            final(self).scanline_count == old(self).scanline_count,
            final(self).screen_buffer == old(self).screen_buffer,
            final(self).carry == old(self).carry,
            final(self).clock == old(self).clock,
    {
        let mask = input.mask();
        let was_pressed = self.memory.pressed & mask != 0;
        self.memory.pressed = self.memory.pressed | mask;
        let keys = self.memory.read_force(KEY_ADDRESS);
        let row_selected = !tbit(keys, input.select_location());
        if !was_pressed && row_selected {
            self.request_interrupt(Interrupt::Joypad);
        }
    }

    /// A button goes up.
    pub fn input_up(&mut self, input: Inputs)
        requires
            old(self).wf(),
        ensures
            final(self).wf(),
            final(self).memory.pressed == old(self).memory.pressed & !input.spec_mask(),
            final(self).memory.rom@ == old(self).memory.rom@,
            final(self).cpu == old(self).cpu,
            final(self).memory.cart == old(self).memory.cart,
            final(self).memory.mbc == old(self).memory.mbc,
            final(self).memory.ram_banks@ == old(self).memory.ram_banks@,
            final(self).memory.divider == old(self).memory.divider,
            final(self).memory.timer_counter == old(self).memory.timer_counter,
            final(self).scanline_count == old(self).scanline_count,
            final(self).screen_buffer == old(self).screen_buffer,
            final(self).carry == old(self).carry,
            final(self).clock == old(self).clock,
    {
        self.memory.pressed = self.memory.pressed & !input.mask();
    }

    /// Hands `cycles` T-states to the timer, then to the PPU.
    fn advance(&mut self, cycles: u32)
        requires
            old(self).wf(),
        ensures
            final(self).wf(),
            advance_post(old(self), final(self), cycles),
    {
        let ghost start = *self;
        self.update_timers(cycles);
        let ghost mid = *self;
        proof {
            assert(mid.memory.vram() =~= start.memory.vram());
            assert(mid.memory.oam() =~= start.memory.oam());
        }
        self.update_graphics(cycles);
        self.clock = self.clock.wrapping_add(cycles as u64);
    }

    /// One CPU step, and its T-states (with any left over from the last frame) handed to the
    /// timer and the PPU. Returns the T-states of the step.
    pub fn step(&mut self) -> (r: u32)
        requires
            old(self).wf(),
        ensures
            final(self).wf(),
            4 <= r <= 24,
            final(self).carry == 0,
            exists|mid: Emulator|
                {
                    &&& #[trigger] execute_post(
                        old(self).cpu,
                        &old(self).memory,
                        mid.cpu,
                        &mid.memory,
                        r,
                    )
                    &&& mid.wf()
                    &&& mid == (Emulator { cpu: mid.cpu, memory: mid.memory, carry: 0, ..*old(self) })
                    &&& advance_post(&mid, final(self), (old(self).carry + r) as u32)
                },
    {
        let ghost start = *self;
        let cycles = self.cpu.execute(&mut self.memory);
        let total = self.carry + cycles;
        self.carry = 0;
        let ghost mid = *self;
        self.advance(total);
        proof {
            assert(execute_post(start.cpu, &start.memory, mid.cpu, &mid.memory, cycles));
        }
        cycles
    }

    /// Runs one frame: CPU steps until exactly 70,224 T-states have been handed to the timer
    /// and the PPU; what the last instruction took beyond that goes to the next frame.
    pub fn update(&mut self)
        requires
            old(self).wf(),
        ensures
            final(self).wf(),
            final(self).clock == old(self).clock.wrapping_add(FRAME_CYCLES as u64),
            exists|states: Seq<Emulator>, mids: Seq<Emulator>, takes: Seq<u32>|
                #[trigger] frame_trace(states, mids, takes, *old(self), *final(self)),
    {
        let ghost states: Seq<Emulator> = seq![*self];
        let ghost takes: Seq<u32> = Seq::empty();
        let ghost mids: Seq<Emulator> = Seq::empty();
        let mut elapsed: u32 = 0;
        while elapsed < FRAME_CYCLES
            invariant
                self.wf(),
                elapsed <= FRAME_CYCLES,
                self.clock == old(self).clock.wrapping_add(elapsed as u64),
                states.len() == takes.len() + 1,
                mids.len() == takes.len(),
                states[0] == *old(self),
                states.last() == *self,
                forall|i: int|
                    0 <= i < takes.len() ==> #[trigger] frame_step(
                        states[i],
                        mids[i],
                        states[i + 1],
                        takes[i],
                    ),
                sum_takes(takes) == elapsed,
            decreases FRAME_CYCLES - elapsed,
        {
            let ghost a = *self;
            if self.carry == 0 {
                let cycles = self.cpu.execute(&mut self.memory);
                self.carry = cycles;
            }
            let ghost mid = *self;
            let left = FRAME_CYCLES - elapsed;
            let take = if self.carry < left {
                self.carry
            } else {
                left
            };
            self.carry = self.carry - take;
            let ghost start = *self;
            self.advance(take);
            proof {
                assert(start == Emulator { carry: (mid.carry - take) as u32, ..mid });
                assert(frame_step(a, mid, *self, take));
                let old_states = states;
                let old_takes = takes;
                let old_mids = mids;
                states = states.push(*self);
                takes = takes.push(take);
                mids = mids.push(mid);
                assert forall|i: int| 0 <= i < takes.len() implies #[trigger] frame_step(
                    states[i],
                    mids[i],
                    states[i + 1],
                    takes[i],
                ) by {
                    if i < old_takes.len() {
                        assert(states[i] == old_states[i]);
                        assert(states[i + 1] == old_states[i + 1]);
                        assert(mids[i] == old_mids[i]);
                        assert(takes[i] == old_takes[i]);
                    }
                }
                assert(takes.drop_last() =~= old_takes);
            }
            elapsed = elapsed + take;
        }
        proof {
            assert(frame_trace(states, mids, takes, *old(self), *self));
        }
    }
}

/// `b` is `a` after `n` T-states handed to the timer and then to the PPU: the timer runs
/// `n` steps, the PPU then runs `n` steps (seeing the timer's interrupt requests) and draws
/// the lines it reaches; the CPU and everything else stay as they were.
pub open spec fn advance_post(a: &Emulator, b: &Emulator, n: u32) -> bool {
    let t = timer_run(a.timer_view(), n as nat);
    let pv = PpuView { iflag: t.iflag, ..a.ppu_view() };
    let p = ppu_run(pv, n as nat);
    &&& b.timer_view() == (TimerView { iflag: p.iflag, ..t })
    &&& b.ppu_view() == p
    &&& b.screen_view() == screen_run(
        pv,
        a.screen_view(),
        a.memory.lcd_regs(),
        a.memory.vram(),
        a.memory.oam(),
        n as nat,
    )
    &&& b.memory.cart == a.memory.cart
    &&& b.memory.mbc == a.memory.mbc
    &&& b.memory.ram_banks@ == a.memory.ram_banks@
    &&& b.memory.pressed == a.memory.pressed
    &&& b.memory.rom@.len() == a.memory.rom@.len()
    &&& forall|k: int|
        0 <= k < 0x10000 && k != 0xFF05 && k != 0xFF0F && k != 0xFF41 && k != 0xFF44
            ==> #[trigger] b.memory.rom@[k] == a.memory.rom@[k]
    &&& b.cpu == a.cpu
    &&& b.carry == a.carry
    &&& b.clock == a.clock.wrapping_add(n as u64)
}

/// One step of a frame from `a` through `mid` to `b`, handing `take` T-states on: the CPU
/// runs a step (giving `mid`) only when nothing is left over from the last one; then `take` of
/// the T-states owed go to the timer and the PPU and the rest stays owed.
pub open spec fn frame_step(a: Emulator, mid: Emulator, b: Emulator, take: u32) -> bool {
    &&& mid.wf()
    &&& if a.carry == 0 {
        &&& execute_post(a.cpu, &a.memory, mid.cpu, &mid.memory, mid.carry)
        &&& mid == (Emulator { cpu: mid.cpu, memory: mid.memory, carry: mid.carry, ..a })
    } else {
        mid == a
    }
    &&& 1 <= take <= mid.carry
    &&& advance_post(&Emulator { carry: (mid.carry - take) as u32, ..mid }, &b, take)
}

/// Total of the T-states handed on.
pub open spec fn sum_takes(takes: Seq<u32>) -> int
    decreases takes.len(),
{
    if takes.len() == 0 {
        0
    } else {
        sum_takes(takes.drop_last()) + takes.last()
    }
}

/// `states` runs from `a` to `b` by frame steps through `mids` that hand on `takes`, which add
/// up to one frame.
pub open spec fn frame_trace(
    states: Seq<Emulator>,
    mids: Seq<Emulator>,
    takes: Seq<u32>,
    a: Emulator,
    b: Emulator,
) -> bool {
    &&& states.len() == takes.len() + 1
    &&& mids.len() == takes.len()
    &&& states[0] == a
    &&& states.last() == b
    &&& forall|i: int|
        0 <= i < takes.len() ==> #[trigger] frame_step(states[i], mids[i], states[i + 1], takes[i])
    &&& sum_takes(takes) == FRAME_CYCLES
}

/// The CPU steps of the trace write neither LY nor LCDC.
pub open spec fn cpu_keeps_lcd(states: Seq<Emulator>, mids: Seq<Emulator>) -> bool {
    forall|i: int|
        0 <= i < mids.len() ==> #[trigger] mids[i].memory.rom@[0xFF44] == states[i].memory.rom@[0xFF44]
            && mids[i].memory.rom@[0xFF40] == states[i].memory.rom@[0xFF40]
}

proof fn lemma_frame_prefix(
    states: Seq<Emulator>,
    mids: Seq<Emulator>,
    takes: Seq<u32>,
    a: Emulator,
    b: Emulator,
    k: int,
)
    requires
        frame_trace(states, mids, takes, a, b),
        cpu_keeps_lcd(states, mids),
        0 <= k <= takes.len(),
    ensures
        same_position(
            states[k].ppu_view(),
            ppu_run(a.ppu_view(), sum_takes(takes.subrange(0, k)) as nat),
        ),
        sum_takes(takes.subrange(0, k)) >= 0,
    decreases k,
{
    if k == 0 {
        assert(takes.subrange(0, 0) =~= Seq::<u32>::empty());
    } else {
        let j = k - 1;
        lemma_frame_prefix(states, mids, takes, a, b, j);
        let prefix = sum_takes(takes.subrange(0, j)) as nat;
        assert(takes.subrange(0, k).drop_last() =~= takes.subrange(0, j));
        assert(frame_step(states[j], mids[j], states[j + 1], takes[j]));
        let mid = mids[j];
        let st = Emulator { carry: (mid.carry - takes[j]) as u32, ..mid };
        let t = crate::timer::timer_run(st.timer_view(), takes[j] as nat);
        let pv = PpuView { iflag: t.iflag, ..st.ppu_view() };
        assert(same_position(pv, ppu_run(a.ppu_view(), prefix)));
        lemma_run_position(pv, ppu_run(a.ppu_view(), prefix), takes[j] as nat);
        lemma_run_add(a.ppu_view(), prefix, takes[j] as nat);
    }
}

/// Over a frame whose CPU steps write neither LY nor LCDC, begun with the LCD on at the start
/// of a line below 154: after each step LY stands where the PPU alone puts it after the
/// T-states handed on so far (one line further, modulo 154, every 456), and the frame ends on
/// the line it began with.
pub proof fn lemma_frame_ly(
    states: Seq<Emulator>,
    mids: Seq<Emulator>,
    takes: Seq<u32>,
    a: Emulator,
    b: Emulator,
)
    requires
        frame_trace(states, mids, takes, a, b),
        cpu_keeps_lcd(states, mids),
        a.memory.rom@[0xFF40] & 0x80 != 0,
        a.scanline_count == LINE_CYCLES,
        a.memory.rom@[0xFF44] < 154,
    ensures
        forall|k: int|
            0 <= k <= takes.len() ==> #[trigger] states[k].memory.rom@[0xFF44] == ppu_run(
                a.ppu_view(),
                sum_takes(takes.subrange(0, k)) as nat,
            ).ly,
        b.memory.rom@[0xFF44] == a.memory.rom@[0xFF44],
        b.scanline_count == LINE_CYCLES,
{
    assert forall|k: int| 0 <= k <= takes.len() implies #[trigger] states[k].memory.rom@[0xFF44]
        == ppu_run(a.ppu_view(), sum_takes(takes.subrange(0, k)) as nat).ly by {
        lemma_frame_prefix(states, mids, takes, a, b, k);
    }
    lemma_frame_prefix(states, mids, takes, a, b, takes.len() as int);
    assert(takes.subrange(0, takes.len() as int) =~= takes);
    lemma_lines(a.ppu_view(), 154);
}

} // verus!
