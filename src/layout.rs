//! The address map: fixed, disjoint regions of the 16-bit address space.
use vstd::prelude::*;

verus! {

/// Size of the flat backing array: one byte for every 16-bit address.
pub const MEM_SIZE: usize = 0x10000;

/// Boot image, read-only.
pub const BOOT_START: u16 = 0x0000;
pub const BOOT_END: u16 = 0x0100;
/// Low RAM page (the 6502 stack page), read-write.
pub const LOW_RAM_START: u16 = 0x0100;
pub const LOW_RAM_END: u16 = 0x0200;
/// Cartridge ROM, read-only.
pub const ROM_START: u16 = 0x0200;
pub const ROM_END: u16 = 0x2000;
/// Size in bytes of the cartridge image held in ROM.
pub const ROM_SIZE: usize = 0x1E00;
/// Banked window: `SLOT_COUNT` slots of `PAGE_SIZE` bytes each.
pub const BANKS_START: u16 = 0x2000;
pub const BANKS_END: u16 = 0x4000;
/// Size in bytes of one bank page and of one slot of the banked window.
pub const PAGE_SIZE: usize = 0x400;
/// Number of slots in the banked window, and of bank-select registers.
pub const SLOT_COUNT: usize = 8;
/// Number of banks that a bank-select register can name.
pub const BANK_COUNT: usize = 256;
/// Slots below this one are read-only whatever bank they show; from this
/// slot on, a write reaches the bank if the bank itself is writable.
pub const FIRST_WRITABLE_SLOT: usize = 7;
/// Bank-select registers: register `s` holds the bank shown in slot `s`.
pub const BANK_SELECT_START: u16 = 0x4010;
pub const BANK_SELECT_END: u16 = 0x4018;
/// Console cell: a read takes one byte of standard input, a write sends
/// one byte to standard output.
pub const STDIO: u16 = 0x4019;
/// General RAM, read-write.
pub const RAM_START: u16 = 0x5000;
pub const RAM_END: u16 = 0xFFFF;
/// Offset in the cartridge image, and length, of the game title.
pub const TITLE_OFFSET: usize = 6;
pub const TITLE_LEN: usize = 10;

/// What an address is decoded to.
#[derive(Clone, Copy, Debug, PartialEq, Eq, Structural)]
pub enum Region {
    /// Boot image: reads the stored byte, ignores writes.
    Boot,
    /// Low RAM page: reads and writes the stored byte.
    LowRam,
    /// Cartridge ROM: reads the stored byte, ignores writes.
    Rom,
    /// Banked window: reads and writes reach the bank that the slot shows.
    Banked,
    /// Bank-select register: reads and writes the stored byte.
    BankSelect,
    /// Console cell.
    Stdio,
    /// General RAM: reads and writes the stored byte.
    Ram,
    /// Any other address: reads give 0, writes are ignored.
    Unmapped,
}

/// The region that an address belongs to; every address has exactly one.
pub open spec fn region_of(a: u16) -> Region {
    if BOOT_START <= a < BOOT_END {
        Region::Boot
    } else if LOW_RAM_START <= a < LOW_RAM_END {
        Region::LowRam
    } else if ROM_START <= a < ROM_END {
        Region::Rom
    } else if BANKS_START <= a < BANKS_END {
        Region::Banked
    } else if BANK_SELECT_START <= a < BANK_SELECT_END {
        Region::BankSelect
    } else if a == STDIO {
        Region::Stdio
    } else if RAM_START <= a < RAM_END {
        Region::Ram
    } else {
        Region::Unmapped
    }
}

/// Slot of the banked window that address `a` lies in.
pub open spec fn slot_of(a: u16) -> int {
    (a - BANKS_START) / (PAGE_SIZE as int)
}

/// Offset within its slot of address `a` in the banked window.
pub open spec fn offset_of(a: u16) -> int {
    (a - BANKS_START) % (PAGE_SIZE as int)
}

/// Address of the bank-select register of slot `s`.
pub open spec fn select_register(s: int) -> int {
    BANK_SELECT_START + s
}

/// Decodes an address to its region.
pub fn region(a: u16) -> (r: Region)
    ensures
        r == region_of(a),
{
    if a < BOOT_END {
        Region::Boot
    } else if a < LOW_RAM_END {
        Region::LowRam
    } else if a < ROM_END {
        Region::Rom
    } else if a < BANKS_END {
        Region::Banked
    } else if BANK_SELECT_START <= a && a < BANK_SELECT_END {
        Region::BankSelect
    } else if a == STDIO {
        Region::Stdio
    } else if RAM_START <= a && a < RAM_END {
        Region::Ram
    } else {
        Region::Unmapped
    }
}

/// Splits an address of the banked window into its slot and the offset
/// within that slot.
pub fn slot_and_offset(a: u16) -> (r: (usize, usize))
    requires
        region_of(a) == Region::Banked,
    ensures
        r.0 == slot_of(a),
        r.1 == offset_of(a),
        r.0 < SLOT_COUNT,
        r.1 < PAGE_SIZE,
{
    let rel: usize = (a - BANKS_START) as usize;
    (rel / PAGE_SIZE, rel % PAGE_SIZE)
}

} // verus!
