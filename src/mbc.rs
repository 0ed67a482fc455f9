use vstd::prelude::*;

use crate::cartridge::RomBankMode;

verus! {

/// The state of the cartridge's bank controller.
#[derive(Clone, Copy, Debug, PartialEq, Eq, Structural)]
pub struct Mbc {
    pub kind: RomBankMode,
    /// ROM bank seen at 0x4000..0x7FFF; never 0.
    pub current_rom_bank: u8,
    /// External RAM bank seen at 0xA000..0xBFFF.
    pub current_ram_bank: u8,
    pub enable_ram: bool,
    /// false: the 0x4000 register extends the ROM bank; true: it selects the RAM bank.
    pub banking_mode: bool,
}

/// MBC1: the low five bits of the bank come from `v`, with a zero field read as 1.
pub open spec fn lo_bank(old: u8, v: u8) -> u8 {
    if v & 0x1F == 0 {
        (old & 0x60) | 1
    } else {
        (old & 0x60) | (v & 0x1F)
    }
}

/// MBC1: bits 5 and 6 of the bank come from the two low bits of `v`.
pub open spec fn hi_bank(old: u8, v: u8) -> u8 {
    (old & 0x1F) | ((v & 3) << 5u8)
}

/// MBC2: the bank is the low nibble of `v`, at least 1.
pub open spec fn mbc2_bank(v: u8) -> u8 {
    if v & 0x0F == 0 {
        1
    } else {
        v & 0x0F
    }
}

/// The controller after the CPU writes `v` at `a` in the ROM area.
pub open spec fn mbc_after_write(m: Mbc, a: usize, v: u8) -> Mbc {
    match m.kind {
        RomBankMode::No => m,
        RomBankMode::MBC1 => {
            if a < 0x2000 {
                Mbc { enable_ram: v & 0x0F == 0x0A, ..m }
            } else if a < 0x4000 {
                Mbc { current_rom_bank: lo_bank(m.current_rom_bank, v), ..m }
            } else if a < 0x6000 {
                if m.banking_mode {
                    Mbc { current_ram_bank: v & 3, ..m }
                } else {
                    Mbc { current_rom_bank: hi_bank(m.current_rom_bank, v), ..m }
                }
            } else if a < 0x8000 {
                Mbc {
                    banking_mode: v & 1 != 0,
                    current_ram_bank: if v & 1 != 0 { m.current_ram_bank } else { 0 },
                    ..m
                }
            } else {
                m
            }
        },
        RomBankMode::MBC2 => {
            if a < 0x4000 {
                if a & 0x100 == 0 {
                    Mbc { enable_ram: v & 0x0F == 0x0A, ..m }
                } else {
                    Mbc { current_rom_bank: mbc2_bank(v), ..m }
                }
            } else {
                m
            }
        },
    }
}

proof fn lemma_banks_valid(old: u8, v: u8)
    ensures
        (old & 0x60) | 1 < 0x80,
        ((old & 0x60) | 1) & 0x1F != 0,
        v & 0x1F != 0 ==> (old & 0x60) | (v & 0x1F) < 0x80 && ((old & 0x60) | (v & 0x1F)) & 0x1F
            != 0,
        old & 0x1F != 0 ==> (old & 0x1F) | ((v & 3) << 5u8) < 0x80 && ((old & 0x1F) | ((v & 3)
            << 5u8)) & 0x1F != 0,
        v & 0x0F != 0 ==> v & 0x0F < 0x80 && (v & 0x0F) & 0x1F != 0,
        v & 3 < 4,
        1u8 & 0x1F != 0,
{
    assert((old & 0x60) | 1 < 0x80) by (bit_vector);
    assert(((old & 0x60) | 1) & 0x1F != 0) by (bit_vector);
    assert(v & 0x1F != 0 ==> (old & 0x60) | (v & 0x1F) < 0x80 && ((old & 0x60) | (v & 0x1F))
        & 0x1F != 0) by (bit_vector);
    assert(old & 0x1F != 0 ==> (old & 0x1F) | ((v & 3) << 5u8) < 0x80 && ((old & 0x1F) | ((v
        & 3) << 5u8)) & 0x1F != 0) by (bit_vector);
    assert(v & 0x0F != 0 ==> v & 0x0F < 0x80 && (v & 0x0F) & 0x1F != 0) by (bit_vector);
    assert(v & 3 < 4) by (bit_vector);
    assert(1u8 & 0x1F != 0) by (bit_vector);
}

impl Mbc {
    pub open spec fn wf(&self) -> bool {
        &&& self.current_rom_bank < 0x80
        &&& self.current_rom_bank & 0x1F != 0
        &&& self.current_ram_bank < 4
    }

    /// The controller as the cartridge powers up: bank 1, RAM off.
    pub fn new(kind: RomBankMode) -> (r: Mbc)
        ensures
            r == (Mbc {
                kind,
                current_rom_bank: 1,
                current_ram_bank: 0,
                enable_ram: false,
                banking_mode: false,
            }),
            r.wf(),
    {
        proof {
            lemma_banks_valid(0, 0);
        }
        Mbc { kind, current_rom_bank: 1, current_ram_bank: 0, enable_ram: false, banking_mode: false }
    }

    /// Interprets a CPU write of `data` at `address` (below 0x8000) as a controller command.
    pub fn handle_banking(&mut self, address: usize, data: u8)
        requires
            old(self).wf(),
            address < 0x8000,
        ensures
            *final(self) == mbc_after_write(*old(self), address, data),
            final(self).wf(),
    {
        proof {
            lemma_banks_valid(self.current_rom_bank, data);
        }
        match self.kind {
            RomBankMode::No => {},
            RomBankMode::MBC1 => {
                if address < 0x2000 {
                    self.handle_ram_bank_enable(data);
                } else if address < 0x4000 {
                    self.handle_change_lo_rom_bank(data);
                } else if address < 0x6000 {
                    if self.banking_mode {
                        self.handle_change_ram_bank(data);
                    } else {
                        self.handle_change_hi_rom_bank(data);
                    }
                } else {
                    self.handle_change_rom_ram_mode(data);
                }
            },
            RomBankMode::MBC2 => {
                if address < 0x4000 {
                    if address & 0x100 == 0 {
                        self.handle_ram_bank_enable(data);
                    } else {
                        self.current_rom_bank = if data & 0x0F == 0 {
                            1
                        } else {
                            data & 0x0F
                        };
                    }
                }
            },
        }
    }

    /// External RAM is enabled by 0x_A in the low nibble and disabled by anything else.
    fn handle_ram_bank_enable(&mut self, data: u8)
        ensures
            *final(self) == (Mbc { enable_ram: data & 0x0F == 0x0A, ..*old(self) }),
    {
        self.enable_ram = data & 0x0F == 0x0A;
    }

    fn handle_change_lo_rom_bank(&mut self, data: u8)
        ensures
            *final(self) == (Mbc {
                current_rom_bank: lo_bank(old(self).current_rom_bank, data),
                ..*old(self)
            }),
    {
        let lower_five = data & 0x1F;
        if lower_five == 0 {
            self.current_rom_bank = (self.current_rom_bank & 0x60) | 1;
        } else {
            self.current_rom_bank = (self.current_rom_bank & 0x60) | lower_five;
        }
    }

    fn handle_change_hi_rom_bank(&mut self, data: u8)
        ensures
            *final(self) == (Mbc {
                current_rom_bank: hi_bank(old(self).current_rom_bank, data),
                ..*old(self)
            }),
    {
        self.current_rom_bank = (self.current_rom_bank & 0x1F) | ((data & 3) << 5u8);
    }

    fn handle_change_ram_bank(&mut self, data: u8)
        ensures
            *final(self) == (Mbc { current_ram_bank: data & 3, ..*old(self) }),
    {
        self.current_ram_bank = data & 3;
    }

    /// Bit 0 selects the mode; ROM mode also puts RAM bank 0 back.
    fn handle_change_rom_ram_mode(&mut self, data: u8)
        ensures
            *final(self) == (Mbc {
                banking_mode: data & 1 != 0,
                current_ram_bank: if data & 1 != 0 {
                    old(self).current_ram_bank
                } else {
                    0
                },
                ..*old(self)
            }),
    {
        self.banking_mode = data & 1 != 0;
        if !self.banking_mode {
            self.current_ram_bank = 0;
        }
    }
}

} // verus!
