use vstd::prelude::*;

verus! {

/// Largest accepted ROM image: 2 MiB.
pub const MAX_ROM_SIZE: usize = 0x200000;

/// Size of the external RAM: four 8 KiB banks.
pub const RAM_SIZE: usize = 0x8000;

/// Offset of the cartridge-type byte in the ROM header.
pub const CARTRIDGE_TYPE_OFFSET: usize = 0x147;

/// The bank controller that a cartridge carries.
#[derive(PartialEq, Eq, Structural, Clone, Copy, Debug)]
pub enum BankingType {
    NoBanking,
    MBC1,
    MBC2,
    MBC3,
}

/// Why a ROM image cannot be loaded.
#[derive(PartialEq, Eq, Structural, Clone, Copy, Debug)]
pub enum CartridgeError {
    /// The image is empty, larger than 2 MiB, not a power of two in length,
    /// or too short to hold the header.
    InvalidSize(usize),
    /// The cartridge-type byte names a controller that is not supported.
    UnsupportedType(u8),
}

/// Whether `n` is a power of two.
pub open spec fn is_power_of_two(n: nat) -> bool
    decreases n,
{
    if n == 0 {
        false
    } else if n == 1 {
        true
    } else {
        n % 2 == 0 && is_power_of_two(n / 2)
    }
}

/// The controller selected by the cartridge-type byte, if it is supported.
pub open spec fn banking_type_of(b: u8) -> Option<BankingType> {
    if b == 0x00 {
        Some(BankingType::NoBanking)
    } else if 0x01 <= b <= 0x03 {
        Some(BankingType::MBC1)
    } else if 0x05 <= b <= 0x06 {
        Some(BankingType::MBC2)
    } else if 0x0F <= b <= 0x13 {
        Some(BankingType::MBC3)
    } else {
        None
    }
}

/// Whether a ROM image of `len` bytes has an accepted size.
pub open spec fn valid_rom_size(len: nat) -> bool {
    is_power_of_two(len) && len <= MAX_ROM_SIZE && len > CARTRIDGE_TYPE_OFFSET
}

/// Whether a ROM image can be loaded: its size is accepted and its
/// cartridge-type byte names a supported controller.
pub open spec fn rom_accepted(rom: Seq<u8>) -> bool {
    valid_rom_size(rom.len()) && banking_type_of(rom[0x147]).is_some()
}

/// Returns whether `n` is a power of two.
pub fn power_of_two(n: usize) -> (r: bool)
    ensures
        r == is_power_of_two(n as nat),
{
    if n == 0 {
        return false;
    }
    let mut m: usize = n;
    while m > 1 && m % 2 == 0
        invariant
            m > 0,
            is_power_of_two(m as nat) == is_power_of_two(n as nat),
        decreases m,
    {
        m = m / 2;
    }
    m == 1
}

/// Returns the controller selected by the cartridge-type byte.
pub fn resolve_banking_type(b: u8) -> (r: Option<BankingType>)
    ensures
        r == banking_type_of(b),
{
    if b == 0x00 {
        Some(BankingType::NoBanking)
    } else if 0x01 <= b && b <= 0x03 {
        Some(BankingType::MBC1)
    } else if 0x05 <= b && b <= 0x06 {
        Some(BankingType::MBC2)
    } else if 0x0F <= b && b <= 0x13 {
        Some(BankingType::MBC3)
    } else {
        None
    }
}

/// A cartridge: its ROM image, external RAM and bank-controller state.
pub struct Cartridge {
    pub rom: Vec<u8>,
    pub ram_banks: Vec<u8>,
    pub banking_type: BankingType,
    pub current_rom_bank: u8,
    pub current_ram_bank: u8,
    pub rom_banking_mode: bool,
    pub ram_write_enabled: bool,
}

impl Cartridge {
    /// The state invariant.
    pub open spec fn wf(&self) -> bool {
        &&& valid_rom_size(self.rom@.len())
        &&& self.ram_banks@.len() == RAM_SIZE
        &&& self.current_rom_bank >= 1
        &&& self.current_ram_bank < 4
    }

    /// Position in the ROM image read at `address` (0x0000..=0x7FFF).
    pub open spec fn rom_index(&self, address: u16) -> int {
        let offset = if address < 0x4000 {
            address as int
        } else {
            self.current_rom_bank as int * 0x4000 + (address - 0x4000)
        };
        offset % (self.rom@.len() as int)
    }

    /// Position in the external RAM at `address` (0xA000..=0xBFFF).
    pub open spec fn ram_index(&self, address: u16) -> int {
        self.current_ram_bank as int * 0x2000 + (address - 0xA000)
    }

    /// The byte read at a cartridge address.
    pub open spec fn read_spec(&self, address: u16) -> u8 {
        if address < 0x8000 {
            self.rom@[self.rom_index(address)]
        } else {
            self.ram_banks@[self.ram_index(address)]
        }
    }

    /// The ROM bank after a write of `byte` to control address `address`.
    pub open spec fn rom_bank_after(&self, address: u16, byte: u8) -> u8 {
        let bank = self.current_rom_bank as int;
        let b = if 0x2000 <= address < 0x4000 {
            match self.banking_type {
                BankingType::MBC1 => (bank / 32) * 32 + byte % 32,
                BankingType::MBC2 => byte as int % 16,
                BankingType::MBC3 => byte as int % 128,
                BankingType::NoBanking => bank,
            }
        } else if 0x4000 <= address < 0x6000 && self.banking_type == BankingType::MBC1
            && self.rom_banking_mode {
            bank % 32 + (byte % 4) * 32
        } else {
            bank
        };
        if b == 0 {
            1
        } else {
            b as u8
        }
    }

    /// The RAM bank after a write of `byte` to control address `address`.
    /// On MBC3 the values 0x08..=0x0C, which select a clock register, leave
    /// the RAM bank as it is: this library keeps no real-time clock.
    pub open spec fn ram_bank_after(&self, address: u16, byte: u8) -> u8 {
        if 0x4000 <= address < 0x6000 && self.banking_type == BankingType::MBC1
            && !self.rom_banking_mode {
            byte % 4
        } else if 0x4000 <= address < 0x6000 && self.banking_type == BankingType::MBC3 && byte
            < 4 {
            byte
        } else if 0x6000 <= address < 0x8000 && self.banking_type == BankingType::MBC1 && byte
            % 2 == 0 {
            0
        } else {
            self.current_ram_bank
        }
    }

    /// The banking mode after a write of `byte` to control address `address`.
    pub open spec fn mode_after(&self, address: u16, byte: u8) -> bool {
        if 0x6000 <= address < 0x8000 && self.banking_type == BankingType::MBC1 {
            byte % 2 == 0
        } else {
            self.rom_banking_mode
        }
    }

    /// Whether external RAM accepts writes after a write of `byte` to
    /// control address `address`.
    pub open spec fn ram_enabled_after(&self, address: u16, byte: u8) -> bool {
        if address < 0x2000 && (self.banking_type == BankingType::MBC1 || (self.banking_type
            == BankingType::MBC2 && (address / 256) % 2 == 0)) {
            byte % 16 == 0x0A
        } else {
            self.ram_write_enabled
        }
    }

    /// What a write of `byte` at a cartridge address does: control
    /// registers at 0x0000..=0x7FFF, external RAM at 0xA000..=0xBFFF when
    /// RAM writes are enabled. The ROM image never changes.
    pub open spec fn write_effect(pre: Cartridge, post: Cartridge, address: u16, byte: u8) -> bool {
        &&& post.rom == pre.rom
        &&& post.banking_type == pre.banking_type
        &&& address < 0x8000 ==> {
            &&& post.ram_banks == pre.ram_banks
            &&& post.current_rom_bank == pre.rom_bank_after(address, byte)
            &&& post.current_ram_bank == pre.ram_bank_after(address, byte)
            &&& post.rom_banking_mode == pre.mode_after(address, byte)
            &&& post.ram_write_enabled == pre.ram_enabled_after(address, byte)
        }
        &&& 0xA000 <= address ==> {
            &&& post.ram_banks@ == if pre.ram_write_enabled {
                pre.ram_banks@.update(pre.ram_index(address), byte)
            } else {
                pre.ram_banks@
            }
            &&& post.current_rom_bank == pre.current_rom_bank
            &&& post.current_ram_bank == pre.current_ram_bank
            &&& post.rom_banking_mode == pre.rom_banking_mode
            &&& post.ram_write_enabled == pre.ram_write_enabled
        }
    }

    /// The state of a cartridge just loaded from `rom`: the controller its
    /// type byte names, ROM bank 1, RAM bank 0, ROM banking, RAM writes
    /// disabled and RAM cleared.
    pub open spec fn loaded_from(&self, rom: Seq<u8>) -> bool {
        &&& self.wf()
        &&& self.rom@ == rom
        &&& Some(self.banking_type) == banking_type_of(rom[0x147])
        &&& self.current_rom_bank == 1
        &&& self.current_ram_bank == 0
        &&& self.rom_banking_mode
        &&& !self.ram_write_enabled
        &&& forall|i: int| 0 <= i < RAM_SIZE ==> self.ram_banks@[i] == 0
    }

    /// Loads a ROM image: checks its size and selects the bank controller
    /// from the cartridge-type byte.
    pub fn new(rom: Vec<u8>) -> (r: Result<Cartridge, CartridgeError>)
        ensures
            !valid_rom_size(rom@.len()) ==> r == Err::<Cartridge, CartridgeError>(
                CartridgeError::InvalidSize(rom@.len() as usize),
            ),
            valid_rom_size(rom@.len()) && banking_type_of(rom@[0x147]).is_none() ==> r == Err::<
                Cartridge,
                CartridgeError,
            >(CartridgeError::UnsupportedType(rom@[0x147])),
            r.is_ok() == rom_accepted(rom@),
            r matches Ok(c) ==> c.loaded_from(rom@),
    {
        let len = rom.len();
        if len > MAX_ROM_SIZE || !power_of_two(len) || len <= CARTRIDGE_TYPE_OFFSET {
            return Err(CartridgeError::InvalidSize(len));
        }
        let type_byte = rom[CARTRIDGE_TYPE_OFFSET];
        let banking_type = match resolve_banking_type(type_byte) {
            Some(t) => t,
            None => {
                return Err(CartridgeError::UnsupportedType(type_byte));
            },
        };
        let ram_banks: Vec<u8> = vec![0u8; RAM_SIZE];
        Ok(
            Cartridge {
                rom,
                ram_banks,
                banking_type,
                current_rom_bank: 1,
                current_ram_bank: 0,
                rom_banking_mode: true,
                ram_write_enabled: false,
            },
        )
    }

    /// Enables or disables external RAM writes from the low nibble of
    /// `byte`: 0x0A enables, any other value disables. On MBC2 only
    /// addresses with bit 8 clear reach this register.
    pub fn update_ram_writing(&mut self, address: u16, byte: u8)
        ensures
            final(self).ram_write_enabled == if old(self).banking_type == BankingType::MBC2 && (address
                / 256) % 2 == 1 {
                old(self).ram_write_enabled
            } else {
                byte % 16 == 0x0A
            },
            final(self).rom == old(self).rom,
            final(self).ram_banks == old(self).ram_banks,
            final(self).banking_type == old(self).banking_type,
            final(self).current_rom_bank == old(self).current_rom_bank,
            final(self).current_ram_bank == old(self).current_ram_bank,
            final(self).rom_banking_mode == old(self).rom_banking_mode,
    {
        if self.banking_type == BankingType::MBC2 && (address / 256) % 2 == 1 {
            return;
        }
        self.ram_write_enabled = byte % 16 == 0x0A;
    }

    /// Sets the low bits of the ROM bank: bits 0-4 on MBC1, 0-3 on MBC2,
    /// 0-6 on MBC3; a cartridge without a bank controller keeps its bank.
    /// Bank 0 becomes bank 1.
    pub fn change_lo_rom_bank(&mut self, byte: u8)
        ensures
            final(self).current_rom_bank == old(self).rom_bank_after(0x2000, byte),
            final(self).rom == old(self).rom,
            final(self).ram_banks == old(self).ram_banks,
            final(self).banking_type == old(self).banking_type,
            final(self).current_ram_bank == old(self).current_ram_bank,
            final(self).rom_banking_mode == old(self).rom_banking_mode,
            final(self).ram_write_enabled == old(self).ram_write_enabled,
    {
        let bank: u8 = match self.banking_type {
            BankingType::MBC2 => byte % 16,
            BankingType::MBC3 => byte % 128,
            BankingType::MBC1 => (self.current_rom_bank / 32) * 32 + byte % 32,
            BankingType::NoBanking => self.current_rom_bank,
        };
        self.current_rom_bank = if bank == 0 {
            1
        } else {
            bank
        };
    }

    /// Sets bits 5-6 of the ROM bank from the two low bits of `byte`.
    /// Bank 0 becomes bank 1.
    pub fn change_hi_rom_bank(&mut self, byte: u8)
        ensures
            final(self).current_rom_bank == (if old(self).current_rom_bank % 32 + (byte % 4) * 32
                == 0 {
                1
            } else {
                old(self).current_rom_bank % 32 + (byte % 4) * 32
            }),
            final(self).rom == old(self).rom,
            final(self).ram_banks == old(self).ram_banks,
            final(self).banking_type == old(self).banking_type,
            final(self).current_ram_bank == old(self).current_ram_bank,
            final(self).rom_banking_mode == old(self).rom_banking_mode,
            final(self).ram_write_enabled == old(self).ram_write_enabled,
    {
        let bank: u8 = self.current_rom_bank % 32 + (byte % 4) * 32;
        self.current_rom_bank = if bank == 0 {
            1
        } else {
            bank
        };
    }

    /// Sets the RAM bank to the two low bits of `byte`.
    pub fn change_ram_bank(&mut self, byte: u8)
        ensures
            final(self).current_ram_bank == byte % 4,
            final(self).rom == old(self).rom,
            final(self).ram_banks == old(self).ram_banks,
            final(self).banking_type == old(self).banking_type,
            final(self).current_rom_bank == old(self).current_rom_bank,
            final(self).rom_banking_mode == old(self).rom_banking_mode,
            final(self).ram_write_enabled == old(self).ram_write_enabled,
    {
        self.current_ram_bank = byte % 4;
    }

    /// Selects ROM banking (bit 0 clear) or RAM banking (bit 0 set);
    /// ROM banking pins the RAM bank to 0.
    pub fn set_banking_mode(&mut self, byte: u8)
        ensures
            final(self).rom_banking_mode == (byte % 2 == 0),
            final(self).current_ram_bank == if byte % 2 == 0 {
                0
            } else {
                old(self).current_ram_bank
            },
            final(self).rom == old(self).rom,
            final(self).ram_banks == old(self).ram_banks,
            final(self).banking_type == old(self).banking_type,
            final(self).current_rom_bank == old(self).current_rom_bank,
            final(self).ram_write_enabled == old(self).ram_write_enabled,
    {
        self.rom_banking_mode = byte % 2 == 0;
        if self.rom_banking_mode {
            self.current_ram_bank = 0;
        }
    }

    /// Decodes a write to the control registers at 0x0000..=0x7FFF. The
    /// MBC3 real-time clock is not kept: selecting one of its registers
    /// (0x08..=0x0C at 0x4000..=0x5FFF) changes nothing.
    pub fn manage_banking(&mut self, address: u16, byte: u8)
        requires
            old(self).wf(),
            address < 0x8000,
        ensures
            final(self).wf(),
            final(self).rom == old(self).rom,
            final(self).ram_banks == old(self).ram_banks,
            final(self).banking_type == old(self).banking_type,
            final(self).current_rom_bank == old(self).rom_bank_after(address, byte),
            final(self).current_ram_bank == old(self).ram_bank_after(address, byte),
            final(self).rom_banking_mode == old(self).mode_after(address, byte),
            final(self).ram_write_enabled == old(self).ram_enabled_after(address, byte),
    {
        if address < 0x2000 {
            if self.banking_type == BankingType::MBC1 || self.banking_type == BankingType::MBC2 {
                self.update_ram_writing(address, byte);
            }
        } else if address < 0x4000 {
            self.change_lo_rom_bank(byte);
        } else if address < 0x6000 {
            if self.banking_type == BankingType::MBC1 {
                if self.rom_banking_mode {
                    self.change_hi_rom_bank(byte);
                } else {
                    self.change_ram_bank(byte);
                }
            } else if self.banking_type == BankingType::MBC3 && byte < 4 {
                self.current_ram_bank = byte;
            }
        } else {
            if self.banking_type == BankingType::MBC1 {
                self.set_banking_mode(byte);
            }
        }
    }

    /// Reads a byte at 0x0000..=0x7FFF (ROM) or 0xA000..=0xBFFF (external RAM).
    pub fn read(&self, address: u16) -> (r: u8)
        requires
            self.wf(),
            address < 0x8000 || 0xA000 <= address < 0xC000,
        ensures
            r == self.read_spec(address),
    {
        if address < 0x8000 {
            let offset: usize = if address < 0x4000 {
                address as usize
            } else {
                self.current_rom_bank as usize * 0x4000 + (address as usize - 0x4000)
            };
            self.rom[offset % self.rom.len()]
        } else {
            self.ram_banks[self.current_ram_bank as usize * 0x2000 + (address as usize - 0xA000)]
        }
    }

    /// Writes a byte: control registers at 0x0000..=0x7FFF, external RAM
    /// at 0xA000..=0xBFFF when RAM writes are enabled.
    pub fn write(&mut self, address: u16, byte: u8)
        requires
            old(self).wf(),
            address < 0x8000 || 0xA000 <= address < 0xC000,
        ensures
            final(self).wf(),
            Cartridge::write_effect(*old(self), *final(self), address, byte),
    {
        if address < 0x8000 {
            self.manage_banking(address, byte);
        } else if self.ram_write_enabled {
            let index = self.current_ram_bank as usize * 0x2000 + (address as usize - 0xA000);
            self.set_ram(index as u16, byte);
        }
    }

    /// Returns the ROM byte at `address`.
    pub fn get_rom(&self, address: u32) -> (r: u8)
        requires
            (address as int) < self.rom@.len(),
        ensures
            r == self.rom@[address as int],
    {
        self.rom[address as usize]
    }

    /// Returns the external RAM byte at `address`.
    pub fn get_ram(&self, address: u16) -> (r: u8)
        requires
            (address as int) < self.ram_banks@.len(),
        ensures
            r == self.ram_banks@[address as int],
    {
        self.ram_banks[address as usize]
    }

    /// Stores `byte` in external RAM at `address`.
    pub fn set_ram(&mut self, address: u16, byte: u8)
        requires
            (address as int) < old(self).ram_banks@.len(),
        ensures
            final(self).ram_banks@ == old(self).ram_banks@.update(address as int, byte),
            final(self).rom == old(self).rom,
            final(self).banking_type == old(self).banking_type,
            final(self).current_rom_bank == old(self).current_rom_bank,
            final(self).current_ram_bank == old(self).current_ram_bank,
            final(self).rom_banking_mode == old(self).rom_banking_mode,
            final(self).ram_write_enabled == old(self).ram_write_enabled,
    {
        self.ram_banks.set(address as usize, byte);
    }

    /// Returns the current ROM bank.
    pub fn get_current_rom_bank(&self) -> (r: u8)
        ensures
            r == self.current_rom_bank,
    {
        self.current_rom_bank
    }

    /// Returns the current RAM bank.
    pub fn get_current_ram_bank(&self) -> (r: u8)
        ensures
            r == self.current_ram_bank,
    {
        self.current_ram_bank
    }
}

} // verus!
