use vstd::prelude::*;

verus! {

/// Largest cartridge image accepted: 2 MiB.
pub const CARTRIDGE_SIZE: usize = 0x200000;

/// Smallest cartridge image accepted: two 16 KiB ROM banks.
pub const MIN_CARTRIDGE_SIZE: usize = 0x8000;

/// Offset of the header byte that names the bank controller.
pub const RBM_ADDRESS: usize = 0x147;

/// Why a cartridge image was refused.
#[derive(Clone, Copy, Debug, PartialEq, Eq, Structural)]
pub enum LoadError {
    /// The image is larger than 2 MiB.
    TooLarge,
    /// The header names a bank controller that is not emulated.
    UnsupportedMbc(u8),
    /// The image is shorter than 32 KiB, so it lacks a header and bank 1.
    TooSmall,
}

/// The bank controller that a cartridge carries.
#[derive(Clone, Copy, Debug, PartialEq, Eq, Structural)]
pub enum RomBankMode {
    No,
    MBC1,
    MBC2,
}

/// The controller named by header byte `b`, if it is one that is emulated.
pub open spec fn spec_mode_of(b: u8) -> Option<RomBankMode> {
    if b == 0 {
        Some(RomBankMode::No)
    } else if 1 <= b <= 3 {
        Some(RomBankMode::MBC1)
    } else if 5 <= b <= 6 {
        Some(RomBankMode::MBC2)
    } else {
        None
    }
}

/// The controller named by header byte `b`.
pub fn mode_of(b: u8) -> (r: Option<RomBankMode>)
    ensures
        r == spec_mode_of(b),
{
    match b {
        0 => Some(RomBankMode::No),
        1 | 2 | 3 => Some(RomBankMode::MBC1),
        5 | 6 => Some(RomBankMode::MBC2),
        _ => None,
    }
}

/// The byte at `offset` of a cartridge image: the image is padded with zeros up to 2 MiB,
/// and reads past 2 MiB give 0xFF.
pub open spec fn cart_byte(data: Seq<u8>, offset: int) -> u8 {
    if 0 <= offset < data.len() {
        data[offset]
    } else if 0 <= offset < CARTRIDGE_SIZE {
        0
    } else {
        0xFF
    }
}

/// What loading `data` as a cartridge gives.
pub open spec fn load_outcome(data: Seq<u8>) -> Result<RomBankMode, LoadError> {
    if data.len() > CARTRIDGE_SIZE {
        Err(LoadError::TooLarge)
    } else if data.len() < MIN_CARTRIDGE_SIZE {
        Err(LoadError::TooSmall)
    } else {
        match spec_mode_of(data[RBM_ADDRESS as int]) {
            Some(m) => Ok(m),
            None => Err(LoadError::UnsupportedMbc(data[RBM_ADDRESS as int])),
        }
    }
}

/// The read-only image of a game cartridge.
pub struct Cartridge {
    pub data: Vec<u8>,
    pub mode: RomBankMode,
}

impl Cartridge {
    pub open spec fn wf(&self) -> bool {
        load_outcome(self.data@) == Ok::<RomBankMode, LoadError>(self.mode)
    }

    /// Checks the size and the controller byte of a cartridge image and keeps it.
    pub fn from_bytes(data: Vec<u8>) -> (r: Result<Cartridge, LoadError>)
        ensures
            match load_outcome(data@) {
                Ok(m) => r.is_ok() && r.unwrap().data@ == data@ && r.unwrap().mode == m
                    && r.unwrap().wf(),
                Err(e) => r == Err::<Cartridge, LoadError>(e),
            },
    {
        if data.len() > CARTRIDGE_SIZE {
            return Err(LoadError::TooLarge);
        }
        if data.len() < MIN_CARTRIDGE_SIZE {
            return Err(LoadError::TooSmall);
        }
        let b = data[RBM_ADDRESS];
        match mode_of(b) {
            Some(mode) => Ok(Cartridge { data, mode }),
            None => Err(LoadError::UnsupportedMbc(b)),
        }
    }

    /// The byte at `address`: 0 past the end of the image up to 2 MiB, 0xFF beyond.
    pub fn read(&self, address: usize) -> (r: u8)
        ensures
            r == cart_byte(self.data@, address as int),
    {
        if address < self.data.len() {
            self.data[address]
        } else if address < CARTRIDGE_SIZE {
            0
        } else {
            0xFF
        }
    }
}

} // verus!
