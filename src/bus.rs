//! The bus: decodes each read and write of the CPU and routes it to the flat
//! address space, a bank page, or a console cell.
use vstd::prelude::*;
use crate::layout::{
    region, region_of, slot_and_offset, slot_of, offset_of, select_register, Region, BANK_COUNT,
    BANK_SELECT_START, BOOT_END, FIRST_WRITABLE_SLOT, LOW_RAM_START, MEM_SIZE, PAGE_SIZE, ROM_END,
    ROM_SIZE, ROM_START, SLOT_COUNT, TITLE_LEN, TITLE_OFFSET,
};
use crate::page::{Bank, PageModel};
use crate::text::{utf8_decode, utf8_str, is_ascii_bytes, ascii_chars};

verus! {

/// What a read hands back to the CPU.
#[derive(Clone, Copy, Debug, PartialEq, Eq, Structural)]
pub enum BusRead {
    /// The byte read.
    Value(u8),
    /// The console cell was read: the byte is the next one of standard
    /// input, which the caller waits for.
    Input,
}

/// What the caller must do after a write.
#[derive(Clone, Copy, Debug, PartialEq, Eq, Structural)]
pub enum BusWrite {
    /// Nothing: the write was stored or ignored.
    Done,
    /// Send this byte to standard output and flush it.
    Output(u8),
    /// The durable bank of this index was written: flush its page to its
    /// file before the next access.
    Flush(u8),
}

/// The state of the bus: the flat address space and the banks.
pub struct BusModel {
    pub mem: Seq<u8>,
    pub banks: Seq<PageModel>,
}

/// The address space right after construction: the boot image at the
/// bottom, cut or zero-padded to its region, the cartridge image in ROM,
/// zero elsewhere.
pub open spec fn initial_memory(boot: Seq<u8>, game: Seq<u8>) -> Seq<u8> {
    Seq::new(
        MEM_SIZE as nat,
        |a: int|
            if a < BOOT_END && a < boot.len() {
                boot[a]
            } else if ROM_START <= a < ROM_END {
                game[a - ROM_START]
            } else {
                0u8
            },
    )
}

/// Address of the cartridge title in the address space.
pub open spec fn title_start() -> int {
    ROM_START + TITLE_OFFSET
}

/// The text shown for a title: its bytes as UTF-8, or ten question marks
/// where they are not valid UTF-8.
pub open spec fn title_text(bytes: Seq<u8>) -> Seq<char> {
    match utf8_decode(bytes) {
        Some(t) => t,
        None => "??????????"@,
    }
}

impl BusModel {
    pub open spec fn wf(self) -> bool {
        &&& self.mem.len() == MEM_SIZE
        &&& self.banks.len() == BANK_COUNT
        &&& forall|k: int| 0 <= k < BANK_COUNT ==> (#[trigger] self.banks[k]).bytes.len() == PAGE_SIZE
    }

    /// Index of the bank shown in slot `s`: the value of its register.
    pub open spec fn selected(self, s: int) -> int {
        self.mem[select_register(s)] as int
    }

    /// Whether a write to address `a` of the banked window reaches its bank:
    /// the slot must be one of the writable slots, and the bank writable.
    pub open spec fn bank_write_accepted(self, a: u16) -> bool {
        &&& slot_of(a) >= FIRST_WRITABLE_SLOT
        &&& self.banks[self.selected(slot_of(a))].writable
    }

    /// What a read of address `a` gives.
    pub open spec fn read(self, a: u16) -> BusRead {
        match region_of(a) {
            Region::Banked => BusRead::Value(
                self.banks[self.selected(slot_of(a))].bytes[offset_of(a)],
            ),
            Region::Stdio => BusRead::Input,
            Region::Unmapped => BusRead::Value(0),
            _ => BusRead::Value(self.mem[a as int]),
        }
    }

    /// The state after writing `v` to address `a`.
    pub open spec fn after_write(self, a: u16, v: u8) -> BusModel {
        match region_of(a) {
            Region::LowRam | Region::BankSelect | Region::Ram => BusModel {
                mem: self.mem.update(a as int, v),
                ..self
            },
            Region::Banked => {
                if self.bank_write_accepted(a) {
                    let k = self.selected(slot_of(a));
                    let page = self.banks[k];
                    BusModel {
                        banks: self.banks.update(
                            k,
                            PageModel { bytes: page.bytes.update(offset_of(a), v), ..page },
                        ),
                        ..self
                    }
                } else {
                    self
                }
            },
            _ => self,
        }
    }

    /// What the caller must do after writing `v` to address `a`.
    pub open spec fn write_effect(self, a: u16, v: u8) -> BusWrite {
        match region_of(a) {
            Region::Stdio => BusWrite::Output(v),
            Region::Banked => {
                let k = self.selected(slot_of(a));
                if self.bank_write_accepted(a) && self.banks[k].durable {
                    BusWrite::Flush(k as u8)
                } else {
                    BusWrite::Done
                }
            },
            _ => BusWrite::Done,
        }
    }
}

/// The memory bus of the console.
pub struct Fun {
    /// The flat address space, one byte per address.
    pub mmap: Vec<u8>,
    /// The banks, indexed by the values of the bank-select registers.
    pub banks: Vec<Bank>,
}

impl View for Fun {
    type V = BusModel;

    open spec fn view(&self) -> BusModel {
        BusModel { mem: self.mmap@, banks: self.banks@.map_values(|b: Bank| b@) }
    }
}

impl Fun {
    /// Builds the bus from a boot image, a cartridge image and the banks.
    pub fn new(boot: &[u8], game: [u8; 0x1E00], banks: Vec<Bank>) -> (r: Self)
        requires
            banks@.len() == BANK_COUNT,
            forall|k: int| 0 <= k < BANK_COUNT ==> (#[trigger] banks@[k]).wf(),
        ensures
            r@.wf(),
            r@.mem == initial_memory(boot@, game@),
            r.banks@ == banks@,
    {
        let mut mmap: Vec<u8> = Vec::new();
        let mut a: usize = 0;
        while a < MEM_SIZE
            invariant
                a <= MEM_SIZE,
                mmap@.len() == a,
                forall|i: int| 0 <= i < a ==> mmap@[i] == 0u8,
            decreases MEM_SIZE - a,
        {
            mmap.push(0u8);
            a = a + 1;
        }
        let mut i: usize = 0;
        while i < ROM_SIZE
            invariant
                i <= ROM_SIZE,
                mmap@.len() == MEM_SIZE,
                forall|j: int|
                    0 <= j < MEM_SIZE ==> #[trigger] mmap@[j] == if ROM_START <= j < ROM_START + i {
                        game@[j - ROM_START]
                    } else {
                        0u8
                    },
            decreases ROM_SIZE - i,
        {
            mmap.set(ROM_START as usize + i, game[i]);
            i = i + 1;
        }
        let mut n: usize = 0;
        while n < boot.len() && n < BOOT_END as usize
            invariant
                n <= BOOT_END,
                n <= boot@.len(),
                mmap@.len() == MEM_SIZE,
                forall|j: int|
                    0 <= j < MEM_SIZE ==> #[trigger] mmap@[j] == if j < n {
                        boot@[j]
                    } else if ROM_START <= j < ROM_END {
                        game@[j - ROM_START]
                    } else {
                        0u8
                    },
            decreases BOOT_END - n,
        {
            mmap.set(n, boot[n]);
            n = n + 1;
        }
        let r = Fun { mmap, banks };
        assert(r@.mem =~= initial_memory(boot@, game@));
        r
    }

    /// The cartridge title: ten bytes at offset 6 of the cartridge image,
    /// as text, or ten question marks where they are not valid UTF-8.
    pub fn title(&self) -> (r: &str)
        requires
            self@.wf(),
        ensures
            r@ == title_text(self@.mem.subrange(title_start(), title_start() + TITLE_LEN)),
            is_ascii_bytes(self@.mem.subrange(title_start(), title_start() + TITLE_LEN)) ==> r@
                == ascii_chars(self@.mem.subrange(title_start(), title_start() + TITLE_LEN)),
    {
        let start: usize = ROM_START as usize + TITLE_OFFSET;
        let bytes = &self.mmap.as_slice()[start..start + TITLE_LEN];
        match utf8_str(bytes) {
            Some(s) => s,
            None => "??????????",
        }
    }

    /// The game's code and data: low RAM and cartridge ROM.
    pub fn game_code(&self) -> (r: &[u8])
        requires
            self@.wf(),
        ensures
            r@ == self@.mem.subrange(LOW_RAM_START as int, ROM_END as int),
    {
        &self.mmap.as_slice()[LOW_RAM_START as usize..ROM_END as usize]
    }

    /// The bytes of bank `bank`.
    pub fn rom_bank(&self, bank: u8) -> (r: &[u8])
        requires
            self@.wf(),
        ensures
            r@ == self@.banks[bank as int].bytes,
    {
        self.banks[bank as usize].bytes()
    }

    /// The bank shown in slot `bank` of the banked window.
    pub fn map_bank(&mut self, bank: u8) -> (r: &mut Bank)
        requires
            old(self)@.wf(),
            bank < SLOT_COUNT,
        ensures
            *r == old(self).banks@[old(self)@.selected(bank as int)],
            final(self).banks@ == old(self).banks@.update(old(self)@.selected(bank as int), *final(r)),
            final(self).mmap@ == old(self).mmap@,
    {
        let index = self.mmap[BANK_SELECT_START as usize + bank as usize] as usize;
        &mut self.banks[index]
    }

    /// Reads address `address`: the stored byte, the byte of the bank shown
    /// in its slot, a request for a byte of standard input, or 0.
    pub fn read(&self, address: u16) -> (r: BusRead)
        requires
            self@.wf(),
        ensures
            r == self@.read(address),
    {
        match region(address) {
            Region::Banked => {
                let (slot, offset) = slot_and_offset(address);
                let index = self.mmap[BANK_SELECT_START as usize + slot] as usize;
                BusRead::Value(self.banks[index].get(offset))
            },
            Region::Stdio => BusRead::Input,
            Region::Unmapped => BusRead::Value(0),
            _ => BusRead::Value(self.mmap[address as usize]),
        }
    }

    /// Writes `data` to address `address`: stores it, stores it in the bank
    /// shown in its slot, asks for it to be sent to standard output, or
    /// ignores it, as the address's region says.
    pub fn write(&mut self, address: u16, data: u8) -> (r: BusWrite)
        requires
            old(self)@.wf(),
        ensures
            final(self)@ == old(self)@.after_write(address, data),
            r == old(self)@.write_effect(address, data),
            final(self)@.wf(),
    {
        match region(address) {
            Region::LowRam | Region::BankSelect | Region::Ram => {
                self.mmap.set(address as usize, data);
                assert(self@.banks =~= old(self)@.banks);
                BusWrite::Done
            },
            Region::Stdio => BusWrite::Output(data),
            Region::Banked => {
                let (slot, offset) = slot_and_offset(address);
                if slot < FIRST_WRITABLE_SLOT {
                    return BusWrite::Done;
                }
                let index = self.mmap[BANK_SELECT_START as usize + slot];
                let ghost k = index as int;
                let bank = self.map_bank(slot as u8);
                if bank.writable {
                    bank.set(offset, data);
                    let durable = bank.durable;
                    assert(self@.banks =~= old(self)@.banks.update(k, PageModel {
                        bytes: old(self)@.banks[k].bytes.update(offset as int, data),
                        ..old(self)@.banks[k]
                    }));
                    if durable {
                        BusWrite::Flush(index)
                    } else {
                        BusWrite::Done
                    }
                } else {
                    assert(self@.banks =~= old(self)@.banks);
                    BusWrite::Done
                }
            },
            _ => BusWrite::Done,
        }
    }
}

} // verus!
