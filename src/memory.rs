use vstd::prelude::*;

use crate::cartridge::{cart_byte, load_outcome, Cartridge, LoadError, RomBankMode};
use crate::joypad::{joypad_byte, joypad_state};
use crate::mbc::Mbc;

verus! {

pub const MEMORY_SIZE: usize = 0x10000;
pub const ROM_BANK_SIZE: usize = 0x4000;
pub const RAM_BANK_SIZE: usize = 0x2000;
pub const MAX_RAMBANK: usize = 4;

pub const KEY_ADDRESS: usize = 0xFF00;
pub const DIVIDER_REGISTER: usize = 0xFF04;
pub const TIMER_ADDRESS: usize = 0xFF05;
pub const TIMER_MODULATOR: usize = 0xFF06;
pub const TIMER_CONTROLLER: usize = 0xFF07;
pub const INTERRUPT_REQUEST: usize = 0xFF0F;
pub const LCD_CONTROL_ADDRESS: usize = 0xFF40;
pub const LCD_STATUS_ADDRESS: usize = 0xFF41;
pub const SCROLL_Y_ADDRESS: usize = 0xFF42;
pub const SCROLL_X_ADDRESS: usize = 0xFF43;
pub const SCANLINE_ADDRESS: usize = 0xFF44;
pub const LY_COMPARE_ADDRESS: usize = 0xFF45;
pub const DMA_ADDRESS: usize = 0xFF46;
pub const PALETTE_47_ADDRESS: usize = 0xFF47;
pub const PALETTE_48_ADDRESS: usize = 0xFF48;
pub const PALETTE_49_ADDRESS: usize = 0xFF49;
pub const WINDOW_Y_ADDRESS: usize = 0xFF4A;
pub const WINDOW_X_ADDRESS: usize = 0xFF4B;
pub const INTERRUPT_ENABLED: usize = 0xFFFF;
pub const SPRITE_ATTRIBUTE_TABLE: usize = 0xFE00;

/// T-states between two TIMA increments for the frequency in TAC bits 1-0.
pub open spec fn timer_period(tac: u8) -> u32 {
    if tac & 3 == 0 {
        1024
    } else if tac & 3 == 1 {
        16
    } else if tac & 3 == 2 {
        64
    } else {
        256
    }
}

pub fn clock_period(tac: u8) -> (r: u32)
    ensures
        r == timer_period(tac),
        1 <= r <= 1024,
{
    let f = tac & 3;
    if f == 0 {
        1024
    } else if f == 1 {
        16
    } else if f == 2 {
        64
    } else {
        256
    }
}

/// A read by the CPU of guest address `a`, over the parts of the memory state.
pub open spec fn read_model(
    rom: Seq<u8>,
    cart: Seq<u8>,
    mbc: Mbc,
    ram_banks: Seq<u8>,
    divider: u16,
    pressed: u8,
    a: int,
) -> u8 {
    if a < 0x4000 {
        cart_byte(cart, a)
    } else if a < 0x8000 {
        cart_byte(cart, a - 0x4000 + mbc.current_rom_bank * 0x4000)
    } else if 0xA000 <= a < 0xC000 {
        if !mbc.enable_ram {
            0xFF
        } else if mbc.kind == RomBankMode::MBC2 {
            ram_banks[(a - 0xA000) % 0x200] | 0xF0
        } else {
            ram_banks[a - 0xA000 + mbc.current_ram_bank * 0x2000]
        }
    } else if 0xE000 <= a < 0xFE00 {
        rom[a - 0x2000]
    } else if 0xFEA0 <= a < 0xFF00 {
        0xFF
    } else if a == 0xFF00 {
        joypad_byte(rom[a], pressed)
    } else if a == 0xFF04 {
        (divider / 256) as u8
    } else if a == 0xFF0F {
        rom[a] | 0xE0
    } else {
        rom[a]
    }
}

/// External RAM after a write of `v` at `a` while it is enabled: MBC2 keeps the low nibble
/// in its 512 built-in cells, the others store the byte in the selected bank.
pub open spec fn external_ram_after(ram: Seq<u8>, mbc: Mbc, a: int, v: u8) -> Seq<u8> {
    if mbc.kind == RomBankMode::MBC2 {
        ram.update((a - 0xA000) % 0x200, v & 0x0F)
    } else {
        ram.update(a - 0xA000 + mbc.current_ram_bank * 0x2000, v)
    }
}

/// What a plain register or RAM byte holds after the CPU writes `v` at `a`.
pub open spec fn stored_value(a: int, v: u8) -> u8 {
    if a == 0xFF00 {
        v & 0x30
    } else if a == 0xFF04 || a == 0xFF44 {
        0
    } else if a == 0xFF0F {
        v & 0x1F
    } else {
        v
    }
}

/// Addresses whose write lands in the address-space array at the address itself, alone.
pub open spec fn plain_write(a: int) -> bool {
    ||| 0x8000 <= a < 0xA000
    ||| 0xC000 <= a < 0xE000
    ||| 0xFE00 <= a < 0xFEA0
    ||| (0xFF00 <= a < 0x10000 && a != 0xFF07 && a != 0xFF46)
}

/// The registers that power-up sets.
pub open spec fn is_init_addr(a: int) -> bool {
    a == 0xFF05 || a == 0xFF06 || a == 0xFF07 || a == 0xFF10 || a == 0xFF11
        || a == 0xFF12 || a == 0xFF14 || a == 0xFF16 || a == 0xFF17 || a == 0xFF19
        || a == 0xFF1A || a == 0xFF1B || a == 0xFF1C || a == 0xFF1E || a == 0xFF20
        || a == 0xFF21 || a == 0xFF22 || a == 0xFF23 || a == 0xFF24 || a == 0xFF25
        || a == 0xFF26 || a == 0xFF40 || a == 0xFF42 || a == 0xFF43 || a == 0xFF45
        || a == 0xFF47 || a == 0xFF48 || a == 0xFF49 || a == 0xFF4A || a == 0xFF4B
        || a == 0xFFFF
}

/// The I/O registers as the boot ROM leaves them; every other byte starts at 0.
pub open spec fn initial_byte(a: int) -> u8 {
    if a == 0xFF10 {
        0x80
    } else if a == 0xFF11 || a == 0xFF14 || a == 0xFF19 || a == 0xFF1E || a == 0xFF23 {
        0xBF
    } else if a == 0xFF12 || a == 0xFF25 {
        0xF3
    } else if a == 0xFF16 {
        0x3F
    } else if a == 0xFF1A {
        0x7F
    } else if a == 0xFF1B || a == 0xFF20 || a == 0xFF48 || a == 0xFF49 {
        0xFF
    } else if a == 0xFF1C {
        0x9F
    } else if a == 0xFF24 {
        0x77
    } else if a == 0xFF26 {
        0xF1
    } else if a == 0xFF40 {
        0x91
    } else if a == 0xFF47 {
        0xFC
    } else {
        0
    }
}

/// The memory bus: the 64 KiB address space, the cartridge and its controller, external RAM,
/// and the hidden state behind the timer and joypad registers.
pub struct Memory {
    /// Backing bytes of every address that is not served by the cartridge.
    pub rom: Vec<u8>,
    pub cart: Cartridge,
    pub mbc: Mbc,
    pub ram_banks: Vec<u8>,
    /// Internal 16-bit counter; DIV is its high byte.
    pub divider: u16,
    /// T-states left until the next TIMA increment.
    pub timer_counter: u32,
    /// Pressed buttons, one bit each (see `Inputs::spec_mask`).
    pub pressed: u8,
}

impl Memory {
    pub open spec fn wf(&self) -> bool {
        &&& self.rom@.len() == MEMORY_SIZE
        &&& self.ram_banks@.len() == MAX_RAMBANK * RAM_BANK_SIZE
        &&& self.cart.wf()
        &&& self.mbc.wf()
        &&& self.mbc.kind == self.cart.mode
        &&& 1 <= self.timer_counter <= 1024
    }

    /// What the CPU reads at `a`.
    pub open spec fn spec_read(&self, a: int) -> u8 {
        read_model(
            self.rom@,
            self.cart.data@,
            self.mbc,
            self.ram_banks@,
            self.divider,
            self.pressed,
            a,
        )
    }

    /// Everything but the address-space array is as in `o`.
    pub open spec fn same_but_rom(&self, o: &Memory) -> bool {
        &&& self.cart == o.cart
        &&& self.mbc == o.mbc
        &&& self.ram_banks@ == o.ram_banks@
        &&& self.divider == o.divider
        &&& self.timer_counter == o.timer_counter
        &&& self.pressed == o.pressed
    }

    /// The state `new` is what a CPU write of `data` at `address` leaves of `self`.
    pub open spec fn write_post(&self, new: &Memory, address: usize, data: u8) -> bool {
        let a = address as int;
        &&& new.cart == self.cart
        &&& new.pressed == self.pressed
        &&& a < 0x8000 ==> new.mbc == crate::mbc::mbc_after_write(self.mbc, address, data)
        &&& a >= 0x8000 ==> new.mbc == self.mbc
        &&& a < 0x8000 ==> new.rom@ == self.rom@
        &&& (0xA000 <= a < 0xC000 && self.mbc.enable_ram) ==> new.ram_banks@ == external_ram_after(
            self.ram_banks@,
            self.mbc,
            a,
            data,
        )
        &&& !(0xA000 <= a < 0xC000 && self.mbc.enable_ram) ==> new.ram_banks@ == self.ram_banks@
        &&& 0xA000 <= a < 0xC000 ==> new.rom@ == self.rom@
        &&& 0xE000 <= a < 0xFE00 ==> new.rom@ == self.rom@.update(a - 0x2000, data).update(a, data)
        &&& 0xFEA0 <= a < 0xFF00 ==> new.rom@ == self.rom@
        &&& plain_write(a) ==> new.rom@ == self.rom@.update(a, stored_value(a, data))
        &&& a == 0xFF07 ==> new.rom@ == self.rom@.update(a, data)
        &&& a == 0xFF46 ==> {
            let mid = self.rom@.update(a, data);
            &&& forall|i: int|
                0 <= i < 0xA0 ==> #[trigger] new.rom@[0xFE00 + i] == read_model(
                    mid,
                    self.cart.data@,
                    self.mbc,
                    self.ram_banks@,
                    self.divider,
                    self.pressed,
                    data * 256 + i,
                )
            &&& forall|k: int|
                0 <= k < 0x10000 && !(0xFE00 <= k < 0xFEA0) ==> #[trigger] new.rom@[k] == mid[k]
            &&& new.rom@.len() == MEMORY_SIZE
        }
        &&& new.divider == if a == 0xFF04 {
            0
        } else {
            self.divider
        }
        &&& new.timer_counter == if a == 0xFF07 && data & 3 != self.rom@[0xFF07] & 3 {
            timer_period(data)
        } else {
            self.timer_counter
        }
    }

    /// `self` is the memory bus as it powers up with cartridge image `data` of controller `m`.
    pub open spec fn is_power_up(&self, data: Seq<u8>, m: RomBankMode) -> bool {
        &&& self.wf()
        &&& self.cart.data@ == data
        &&& self.mbc == (Mbc {
            kind: m,
            current_rom_bank: 1,
            current_ram_bank: 0,
            enable_ram: false,
            banking_mode: false,
        })
        &&& forall|a: int| 0 <= a < 0x10000 ==> #[trigger] self.rom@[a] == initial_byte(a)
        &&& forall|a: int| 0 <= a < 0x8000 ==> #[trigger] self.ram_banks@[a] == 0
        &&& self.divider == 0
        &&& self.timer_counter == 1024
        &&& self.pressed == 0
    }

    /// Builds the memory bus around the bytes of a cartridge file.
    pub fn from_file(data: Vec<u8>) -> (r: Result<Memory, LoadError>)
        ensures
            match load_outcome(data@) {
                Ok(m) => r.is_ok() && r.unwrap().is_power_up(data@, m),
                Err(e) => r == Err::<Memory, LoadError>(e),
            },
    {
        let cart = match Cartridge::from_bytes(data) {
            Ok(c) => c,
            Err(e) => return Err(e),
        };
        let mbc = Mbc::new(cart.mode);
        let mut mem = Memory {
            rom: vec![0u8; MEMORY_SIZE],
            cart,
            mbc,
            ram_banks: vec![0u8; MAX_RAMBANK * RAM_BANK_SIZE],
            divider: 0,
            timer_counter: 1024,
            pressed: 0,
        };
        proof {
            assert forall|a: int| 0 <= a < 0x10000 implies #[trigger] mem.rom@[a] == 0u8 by {
                assert(vstd::pervasive::cloned(0u8, mem.rom@[a]));
            }
            assert forall|a: int| 0 <= a < 0x8000 implies #[trigger] mem.ram_banks@[a] == 0u8 by {
                assert(vstd::pervasive::cloned(0u8, mem.ram_banks@[a]));
            }
        }
        mem.init();
        Ok(mem)
    }

    /// Puts the I/O registers in their power-up state.
    fn init(&mut self)
        requires
            old(self).rom@.len() == MEMORY_SIZE,
        ensures
            final(self).same_but_rom(old(self)),
            final(self).rom@.len() == MEMORY_SIZE,
            forall|a: int|
                0 <= a < 0x10000 ==> #[trigger] final(self).rom@[a] == if is_init_addr(a) {
                    initial_byte(a)
                } else {
                    old(self).rom@[a]
                },
    {
        self.rom.set(0xFF05, 0x00);
        self.rom.set(0xFF06, 0x00);
        self.rom.set(0xFF07, 0x00);
        self.rom.set(0xFF10, 0x80);
        self.rom.set(0xFF11, 0xBF);
        self.rom.set(0xFF12, 0xF3);
        self.rom.set(0xFF14, 0xBF);
        self.rom.set(0xFF16, 0x3F);
        self.rom.set(0xFF17, 0x00);
        self.rom.set(0xFF19, 0xBF);
        self.rom.set(0xFF1A, 0x7F);
        self.rom.set(0xFF1B, 0xFF);
        self.rom.set(0xFF1C, 0x9F);
        self.rom.set(0xFF1E, 0xBF);
        self.rom.set(0xFF20, 0xFF);
        self.rom.set(0xFF21, 0x00);
        self.rom.set(0xFF22, 0x00);
        self.rom.set(0xFF23, 0xBF);
        self.rom.set(0xFF24, 0x77);
        self.rom.set(0xFF25, 0xF3);
        self.rom.set(0xFF26, 0xF1);
        self.rom.set(0xFF40, 0x91);
        self.rom.set(0xFF42, 0x00);
        self.rom.set(0xFF43, 0x00);
        self.rom.set(0xFF45, 0x00);
        self.rom.set(0xFF47, 0xFC);
        self.rom.set(0xFF48, 0xFF);
        self.rom.set(0xFF49, 0xFF);
        self.rom.set(0xFF4A, 0x00);
        self.rom.set(0xFF4B, 0x00);
        self.rom.set(0xFFFF, 0x00);
    }

    /// What the CPU reads at `address`.
    pub fn read(&self, address: usize) -> (r: u8)
        requires
            self.wf(),
            address < MEMORY_SIZE,
        ensures
            r == self.spec_read(address as int),
    {
        if address < 0x4000 {
            self.cart.read(address)
        } else if address < 0x8000 {
            let translated = (address - 0x4000) + (self.mbc.current_rom_bank as usize)
                * ROM_BANK_SIZE;
            self.cart.read(translated)
        } else if 0xA000 <= address && address < 0xC000 {
            if !self.mbc.enable_ram {
                0xFF
            } else if self.mbc.kind == RomBankMode::MBC2 {
                self.ram_banks[(address - 0xA000) % 0x200] | 0xF0
            } else {
                let translated = (address - 0xA000) + (self.mbc.current_ram_bank as usize)
                    * RAM_BANK_SIZE;
                self.ram_banks[translated]
            }
        } else if 0xE000 <= address && address < 0xFE00 {
            self.rom[address - 0x2000]
        } else if 0xFEA0 <= address && address < 0xFF00 {
            0xFF
        } else if address == KEY_ADDRESS {
            joypad_state(self.rom[address], self.pressed)
        } else if address == DIVIDER_REGISTER {
            (self.divider / 256) as u8
        } else if address == INTERRUPT_REQUEST {
            self.rom[address] | 0xE0
        } else {
            self.rom[address]
        }
    }

    /// Stores a byte with no side effect, whatever the address.
    pub fn write_force(&mut self, address: usize, data: u8)
        requires
            old(self).wf(),
            address < MEMORY_SIZE,
        ensures
            final(self).wf(),
            final(self).same_but_rom(old(self)),
            final(self).rom@ == old(self).rom@.update(address as int, data),
    {
        self.rom.set(address, data);
    }

    /// The byte stored at `address`, with no side effect and no mapping.
    pub fn read_force(&self, address: usize) -> (r: u8)
        requires
            self.wf(),
            address < MEMORY_SIZE,
        ensures
            r == self.rom@[address as int],
    {
        self.rom[address]
    }

    /// A CPU write of `data` at `address`: ROM-area writes go to the bank controller, the
    /// restricted area ignores them, and the I/O registers react as the hardware does.
    pub fn write(&mut self, address: usize, data: u8)
        requires
            old(self).wf(),
            address < MEMORY_SIZE,
        ensures
            final(self).wf(),
            old(self).write_post(final(self), address, data),
    {
        if address < 0x8000 {
            self.mbc.handle_banking(address, data);
        } else if 0xA000 <= address && address < 0xC000 {
            if self.mbc.enable_ram {
                if self.mbc.kind == RomBankMode::MBC2 {
                    // MBC2 has 512 half-bytes of RAM, repeated over the area.
                    self.ram_banks.set((address - 0xA000) % 0x200, data & 0x0F);
                } else {
                    let translated = (address - 0xA000) + (self.mbc.current_ram_bank as usize)
                        * RAM_BANK_SIZE;
                    self.ram_banks.set(translated, data);
                }
            }
        } else if 0xE000 <= address && address < 0xFE00 {
            // Echo memory: the write lands here and 0x2000 below.
            self.rom.set(address - 0x2000, data);
            self.rom.set(address, data);
        } else if 0xFEA0 <= address && address < 0xFF00 {
            // Restricted area: writes are ignored.
        } else if address == DMA_ADDRESS {
            self.rom.set(address, data);
            self.dma_transfer(data);
        } else if address == TIMER_CONTROLLER {
            let old_freq = self.rom[address] & 3;
            self.rom.set(address, data);
            if old_freq != data & 3 {
                self.timer_counter = clock_period(data);
            }
        } else {
            let stored = if address == KEY_ADDRESS {
                data & 0x30
            } else if address == DIVIDER_REGISTER || address == SCANLINE_ADDRESS {
                0
            } else if address == INTERRUPT_REQUEST {
                data & 0x1F
            } else {
                data
            };
            if address == DIVIDER_REGISTER {
                self.divider = 0;
            }
            self.rom.set(address, stored);
        }
    }

    /// Copies the 160 bytes at `data * 0x100` into the sprite attribute table.
    fn dma_transfer(&mut self, data: u8)
        requires
            old(self).wf(),
        ensures
            final(self).wf(),
            final(self).same_but_rom(old(self)),
            final(self).rom@.len() == MEMORY_SIZE,
            forall|i: int|
                0 <= i < 0xA0 ==> #[trigger] final(self).rom@[0xFE00 + i] == old(self).spec_read(
                    data * 256 + i,
                ),
            forall|k: int|
                0 <= k < 0x10000 && !(0xFE00 <= k < 0xFEA0) ==> #[trigger] final(self).rom@[k]
                    == old(self).rom@[k],
    {
        let base = (data as usize) * 256;
        let mut buffer: Vec<u8> = Vec::new();
        let mut i: usize = 0;
        while i < 0xA0
            invariant
                self.wf(),
                base == data * 256,
                i <= 0xA0,
                buffer@.len() == i,
                forall|j: int| 0 <= j < i ==> #[trigger] buffer@[j] == self.spec_read(base + j),
            decreases 0xA0 - i,
        {
            let b = self.read(base + i);
            buffer.push(b);
            i = i + 1;
        }
        let ghost start = *self;
        let mut i: usize = 0;
        while i < 0xA0
            invariant
                start.wf(),
                self.wf(),
                self.same_but_rom(&start),
                i <= 0xA0,
                buffer@.len() == 0xA0,
                forall|j: int|
                    0 <= j < 0xA0 ==> #[trigger] buffer@[j] == start.spec_read(data * 256 + j),
                forall|j: int| 0 <= j < i ==> #[trigger] self.rom@[0xFE00 + j] == buffer@[j],
                forall|k: int|
                    0 <= k < 0x10000 && !(0xFE00 <= k < 0xFE00 + i) ==> #[trigger] self.rom@[k]
                        == start.rom@[k],
            decreases 0xA0 - i,
        {
            self.rom.set(SPRITE_ATTRIBUTE_TABLE + i, buffer[i]);
            i = i + 1;
        }
    }
}


/// A write to echo RAM is read back both at its address and 0x2000 below.
pub proof fn lemma_echo_write_mirrors(m: Memory, n: Memory, a: usize, b: u8)
    requires
        m.wf(),
        0xE000 <= a < 0xFE00,
        m.write_post(&n, a, b),
    ensures
        n.spec_read(a as int) == b,
        n.spec_read(a - 0x2000) == b,
{
}

/// No write, in the ROM area or elsewhere, changes the cartridge image; a write in the ROM
/// area also leaves the address space and external RAM as they were.
pub proof fn lemma_rom_write_keeps_cartridge(m: Memory, n: Memory, a: usize, v: u8)
    requires
        m.wf(),
        a < 0x10000,
        m.write_post(&n, a, v),
    ensures
        n.cart.data@ == m.cart.data@,
        a < 0x8000 ==> n.rom@ == m.rom@ && n.ram_banks@ == m.ram_banks@,
{
}

/// On MBC1, writing a value whose low five bits are zero to 0x2000 selects the bank with low
/// bits 1: 0x01, 0x21, 0x41 or 0x61, and `n + 1` when bits 5-6 of the bank already match `n`.
pub proof fn lemma_mbc1_zero_bank_is_one(m: Memory, new: Memory, n: u8)
    requires
        m.wf(),
        m.mbc.kind == RomBankMode::MBC1,
        n == 0x00 || n == 0x20 || n == 0x40 || n == 0x60,
        m.write_post(&new, 0x2000, n),
    ensures
        new.mbc.current_rom_bank == (m.mbc.current_rom_bank & 0x60) | 1,
        new.mbc.current_rom_bank == 0x01 || new.mbc.current_rom_bank == 0x21
            || new.mbc.current_rom_bank == 0x41 || new.mbc.current_rom_bank == 0x61,
        m.mbc.current_rom_bank & 0x60 == n ==> new.mbc.current_rom_bank == n + 1,
{
    let old_bank = m.mbc.current_rom_bank;
    assert(n & 0x1F == 0) by (bit_vector)
        requires
            n == 0x00 || n == 0x20 || n == 0x40 || n == 0x60,
    ;
    assert(((old_bank & 0x60) | 1) == 0x01 || ((old_bank & 0x60) | 1) == 0x21 || ((old_bank
        & 0x60) | 1) == 0x41 || ((old_bank & 0x60) | 1) == 0x61) by (bit_vector);
    assert(old_bank & 0x60 == n ==> (old_bank & 0x60) | 1 == n + 1) by (bit_vector)
        requires
            n == 0x00 || n == 0x20 || n == 0x40 || n == 0x60,
    ;
}

/// Whatever is written to DIV, it then reads 0.
pub proof fn lemma_div_write_resets(m: Memory, n: Memory, v: u8)
    requires
        m.wf(),
        m.write_post(&n, 0xFF04, v),
    ensures
        n.spec_read(0xFF04) == 0,
{
}

/// After a write of `v` to the DMA register, the sprite table reads as the 160 bytes at
/// `v * 0x100` read.
pub proof fn lemma_dma_copies_page(m: Memory, n: Memory, v: u8)
    requires
        m.wf(),
        m.write_post(&n, 0xFF46, v),
    ensures
        forall|i: int|
            0 <= i < 0xA0 ==> #[trigger] n.spec_read(0xFE00 + i) == n.spec_read(v * 256 + i),
{
    let mid = m.rom@.update(0xFF46, v);
    assert forall|i: int| 0 <= i < 0xA0 implies #[trigger] n.spec_read(0xFE00 + i) == n.spec_read(
        v * 256 + i,
    ) by {
        let src = v * 256 + i;
        assert(n.rom@[0xFE00 + i] == read_model(
            mid,
            m.cart.data@,
            m.mbc,
            m.ram_banks@,
            m.divider,
            m.pressed,
            src,
        ));
        if 0xE000 <= src < 0xFE00 {
            assert(n.rom@[src - 0x2000] == mid[src - 0x2000]);
        } else if 0xFE00 <= src < 0xFEA0 {
        } else if 0x8000 <= src {
            assert(n.rom@[src] == mid[src]);
        }
    }
}

} // verus!
