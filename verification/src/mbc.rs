//! The cartridge shell: header decoding, the no-MBC ("ROM only") memory bank,
//! and the boot-ROM overlay with its unmap latch at 0xFF50. Only the no-MBC
//! cartridge is supported; any other controller code is a domain error at
//! construction time.

use vstd::prelude::*;
use crate::mmu::{MemoryRead, MemoryWrite};

verus! {

/// Construction-time cartridge errors.
#[derive(Clone, Copy, Debug, PartialEq, Eq, Structural)]
pub enum MbcError {
    /// The header names a memory-bank-controller family this core does not
    /// implement; the unsupported controller code is carried along.
    Unsupported(u8),
}

/// The memory bank controller families a header can name. Only the no-MBC
/// variant is constructible here.
pub enum MbcType {
    MbcNone(MbcNone),
}

/// A bankless cartridge: one ROM image mapped at 0x0000..0x7FFF.
pub struct MbcNone {
    pub rom: Vec<u8>,
}

/// What a no-MBC read replies: the ROM byte for 0x0000..0x7FFF, with 0xFF for
/// an address past the image's end; everything above passes through.
pub open spec fn spec_mbc_none_read(m: MbcNone, address: u16) -> MemoryRead {
    if address <= 0x7FFF {
        if address < m.rom@.len() {
            MemoryRead::Replace(m.rom@[address as int])
        } else {
            MemoryRead::Replace(0xFF)
        }
    } else {
        MemoryRead::Pass
    }
}

/// What a no-MBC write replies: ROM is read-only (the write is blocked);
/// external-RAM addresses pass through to the backing store.
pub open spec fn spec_mbc_none_write(address: u16) -> MemoryWrite {
    if address <= 0x7FFF {
        MemoryWrite::Block
    } else {
        MemoryWrite::Pass
    }
}

impl MbcNone {
    pub fn new(rom: Vec<u8>) -> (r: MbcNone)
        ensures
            r.rom == rom,
    {
        MbcNone { rom }
    }

    pub fn read(&self, address: u16) -> (r: MemoryRead)
        ensures
            r == spec_mbc_none_read(*self, address),
    {
        if address <= 0x7FFF {
            if (address as usize) < self.rom.len() {
                return MemoryRead::Replace(self.rom[address as usize]);
            }
            return MemoryRead::Replace(0xFF);
        }
        MemoryRead::Pass
    }

    pub fn write(&self, address: u16, _value: u8) -> (r: MemoryWrite)
        ensures
            r == spec_mbc_none_write(address),
    {
        if address <= 0x7FFF {
            MemoryWrite::Block
        } else {
            MemoryWrite::Pass
        }
    }
}

impl MbcType {
    /// Builds the controller the header code names; any code other than the
    /// no-MBC 0x00 is a domain error.
    pub fn new(code: u8, rom: Vec<u8>) -> (r: Result<MbcType, MbcError>)
        ensures
            code == 0 ==> (r matches Ok(MbcType::MbcNone(m)) && m.rom == rom),
            code != 0 ==> r == Result::<MbcType, MbcError>::Err(MbcError::Unsupported(code)),
    {
        match code {
            0x00 => Ok(MbcType::MbcNone(MbcNone::new(rom))),
            _ => Err(MbcError::Unsupported(code)),
        }
    }

    pub fn read(&self, address: u16) -> (r: MemoryRead)
        ensures
            r == spec_mbc_type_read(*self, address),
    {
        match self {
            MbcType::MbcNone(mbc) => mbc.read(address),
        }
    }

    pub fn write(&self, address: u16, value: u8) -> (r: MemoryWrite)
        ensures
            r == spec_mbc_type_write(*self, address),
    {
        match self {
            MbcType::MbcNone(mbc) => mbc.write(address, value),
        }
    }
}

pub open spec fn spec_mbc_type_read(m: MbcType, address: u16) -> MemoryRead {
    match m {
        MbcType::MbcNone(inner) => spec_mbc_none_read(inner, address),
    }
}

pub open spec fn spec_mbc_type_write(m: MbcType, address: u16) -> MemoryWrite {
    match m {
        MbcType::MbcNone(_) => spec_mbc_none_write(address),
    }
}

/// The title field of a cartridge header. Nothing in the core consumes the
/// title, and the decoder yields the empty string.
pub fn decode_string(_data: &[u8]) -> (r: String)
    ensures
        r@.len() == 0,
{
    String::new()
}

/// The decoded cartridge header and its memory bank controller.
pub struct Cartridge {
    pub title: String,
    pub cgb: bool,
    pub cgb_only: bool,
    pub mbc: MbcType,
    pub rom_size: u8,
    pub ram_size: u8,
}

impl Cartridge {
    /// Decodes the header at 0x134..0x149 and builds the named controller.
    pub fn new(rom: Vec<u8>) -> (r: Result<Cartridge, MbcError>)
        requires
            rom@.len() >= 0x150,
        ensures
            rom@[0x147] == 0 ==> (r matches Ok(c) && c.mbc matches MbcType::MbcNone(m) && m.rom
                == rom && c.rom_size == rom@[0x148] && c.ram_size == rom@[0x149] && c.cgb == (
            rom@[0x143] & 0x80 != 0) && c.cgb_only == (rom@[0x143] & 0x40 != 0)),
            rom@[0x147] != 0 ==> (r matches Err(e) && e == MbcError::Unsupported(rom@[0x147])),
    {
        let title = decode_string(&rom.as_slice()[0x134..0x143]);
        let mbc_type = rom[0x147];
        let rom_size = rom[0x148];
        let ram_size = rom[0x149];
        let cgb = rom[0x143] & 0x80 != 0;
        let cgb_only = rom[0x143] & 0x40 != 0;
        let mbc = match MbcType::new(mbc_type, rom) {
            Ok(m) => m,
            Err(e) => {
                return Err(e);
            },
        };
        Ok(Cartridge { title, cgb, cgb_only, mbc, rom_size, ram_size })
    }

    pub fn read(&self, address: u16) -> (r: MemoryRead)
        ensures
            r == spec_mbc_type_read(self.mbc, address),
    {
        self.mbc.read(address)
    }

    pub fn write(&mut self, address: u16, value: u8) -> (r: MemoryWrite)
        ensures
            *final(self) == *old(self),
            r == spec_mbc_type_write(old(self).mbc, address),
    {
        self.mbc.write(address, value)
    }
}

/// The cartridge with its optional boot-ROM overlay. While the overlay is
/// enabled, its bytes shadow low ROM; writing a nonzero byte to the unmap
/// latch at 0xFF50 removes the overlay permanently.
pub struct Mbc {
    pub cart: Cartridge,
    pub boot_rom: Vec<u8>,
    pub boot_rom_enabled: bool,
}

/// A boot ROM is either the 256-byte image or the 2304-byte image whose
/// second page (0x100..0x1FF) stays uncovered.
pub open spec fn spec_boot_rom_len_ok(len: nat) -> bool {
    len == 0x100 || len == 0x900
}

/// An Mbc is well formed when an enabled overlay has a boot ROM of a valid
/// size.
pub open spec fn spec_mbc_wf(m: Mbc) -> bool {
    m.boot_rom_enabled ==> spec_boot_rom_len_ok(m.boot_rom@.len())
}

/// Whether an address falls under the boot-ROM overlay: the first 256 bytes
/// always; with the 2304-byte image also 0x200..0x8FF.
pub open spec fn spec_in_boot_rom(m: Mbc, address: u16) -> bool {
    address < 0x100 || (m.boot_rom@.len() == 0x900 && 0x200 <= address && address < 0x900)
}

/// What the cartridge shell replies to a bus read: the overlay byte while it
/// is enabled and covers the address, the cartridge otherwise.
pub open spec fn spec_mbc_read(m: Mbc, address: u16) -> MemoryRead {
    if m.boot_rom_enabled && spec_in_boot_rom(m, address) {
        MemoryRead::Replace(m.boot_rom@[address as int])
    } else {
        spec_mbc_type_read(m.cart.mbc, address)
    }
}

/// The cartridge shell and its reply after a bus write: writes under the
/// enabled overlay are blocked; a nonzero byte at 0xFF50 unmaps the overlay
/// and blocks; everything else goes to the cartridge.
pub open spec fn spec_mbc_write(m: Mbc, address: u16, value: u8) -> (Mbc, MemoryWrite) {
    if m.boot_rom_enabled && spec_in_boot_rom(m, address) {
        (m, MemoryWrite::Block)
    } else if address == 0xFF50 {
        (
            Mbc {
                boot_rom_enabled: if value != 0 {
                    false
                } else {
                    m.boot_rom_enabled
                },
                ..m
            },
            MemoryWrite::Block,
        )
    } else {
        (m, spec_mbc_type_write(m.cart.mbc, address))
    }
}

impl Mbc {
    /// Builds the cartridge shell; with a boot ROM supplied the overlay starts
    /// enabled.
    pub fn new(boot_rom: Option<Vec<u8>>, rom: Vec<u8>) -> (r: Result<Mbc, MbcError>)
        requires
            rom@.len() >= 0x150,
            boot_rom matches Some(b) ==> spec_boot_rom_len_ok(b@.len()),
        ensures
            rom@[0x147] != 0 ==> r == Result::<Mbc, MbcError>::Err(
                MbcError::Unsupported(rom@[0x147]),
            ),
            rom@[0x147] == 0 ==> (r matches Ok(m) && spec_mbc_wf(m) && (m.cart.mbc matches
            MbcType::MbcNone(inner) && inner.rom == rom) && (match boot_rom {
                Some(b) => m.boot_rom_enabled && m.boot_rom == b,
                None => !m.boot_rom_enabled,
            })),
    {
        let cart = match Cartridge::new(rom) {
            Ok(c) => c,
            Err(e) => {
                return Err(e);
            },
        };
        match boot_rom {
            Some(boot_rom) => Ok(Mbc { cart, boot_rom, boot_rom_enabled: true }),
            None => Ok(Mbc { cart, boot_rom: Vec::new(), boot_rom_enabled: false }),
        }
    }

    /// Whether the enabled overlay covers the address.
    pub fn in_boot_rom(&self, address: u16) -> (r: bool)
        ensures
            r == spec_in_boot_rom(*self, address),
    {
        address < 0x100 || (self.boot_rom.len() == 0x900 && 0x200 <= address && address < 0x900)
    }

    /// The cartridge shell as a bus handler, for reads at 0x0000..0x7FFF,
    /// 0xA000..0xBFFF and 0xFF50.
    pub fn read(&self, address: u16) -> (r: MemoryRead)
        requires
            spec_mbc_wf(*self),
        ensures
            r == spec_mbc_read(*self, address),
    {
        if self.boot_rom_enabled && self.in_boot_rom(address) {
            return MemoryRead::Replace(self.boot_rom[address as usize]);
        }
        self.cart.read(address)
    }

    /// The cartridge shell as a bus handler, for writes at 0x0000..0x7FFF,
    /// 0xA000..0xBFFF and 0xFF50.
    pub fn write(&mut self, address: u16, value: u8) -> (r: MemoryWrite)
        requires
            spec_mbc_wf(*old(self)),
        ensures
            (*final(self), r) == spec_mbc_write(*old(self), address, value),
            spec_mbc_wf(*final(self)),
    {
        if self.boot_rom_enabled && self.in_boot_rom(address) {
            return MemoryWrite::Block;
        }
        if address == 0xFF50 {
            if value != 0 {
                self.boot_rom_enabled = false;
            }
            return MemoryWrite::Block;
        }
        self.cart.write(address, value)
    }
}

} // verus!
