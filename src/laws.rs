//! Laws of the bus, stated over its model and proved.
use vstd::prelude::*;
use crate::bus::{BusModel, BusRead, BusWrite};
use crate::layout::{
    region_of, slot_of, offset_of, Region, BANKS_START, BANK_COUNT, BANK_SELECT_START,
    FIRST_WRITABLE_SLOT, PAGE_SIZE, SLOT_COUNT, STDIO,
};

verus! {

/// Address of offset `o` within slot `s` of the banked window.
pub open spec fn window_address(s: int, o: int) -> u16 {
    (BANKS_START + s * PAGE_SIZE + o) as u16
}

/// Every write keeps the bus well formed: in particular each bank-select
/// register, whatever byte is written to it, names one of the banks.
pub proof fn lemma_write_keeps_wf(m: BusModel, a: u16, v: u8)
    requires
        m.wf(),
    ensures
        m.after_write(a, v).wf(),
{
    let n = m.after_write(a, v);
    assert forall|k: int| 0 <= k < BANK_COUNT implies (#[trigger] n.banks[k]).bytes.len()
        == PAGE_SIZE by {
        if region_of(a) == Region::Banked && m.bank_write_accepted(a) && k == m.selected(
            slot_of(a),
        ) {
            assert(n.banks[k].bytes.len() == m.banks[k].bytes.len());
        }
    }
}

/// The bank that any slot shows is always one of the banks: no register
/// value can index past the bank collection.
pub proof fn lemma_selected_bank_exists(m: BusModel, s: int)
    requires
        m.wf(),
        0 <= s < SLOT_COUNT,
    ensures
        0 <= m.selected(s) < m.banks.len(),
{
}

/// A write to the boot image or the cartridge ROM changes nothing, so the
/// next read of that address gives what it gave before.
pub proof fn lemma_rom_write_ignored(m: BusModel, a: u16, v: u8)
    requires
        m.wf(),
        region_of(a) == Region::Boot || region_of(a) == Region::Rom,
    ensures
        m.after_write(a, v) == m,
        m.after_write(a, v).read(a) == m.read(a),
        m.write_effect(a, v) == BusWrite::Done,
{
}

/// In RAM, a read right after a write gives the byte written.
pub proof fn lemma_ram_read_after_write(m: BusModel, a: u16, v: u8)
    requires
        m.wf(),
        region_of(a) == Region::Ram || region_of(a) == Region::LowRam,
    ensures
        m.after_write(a, v).read(a) == BusRead::Value(v),
{
}

/// Writing bank index `k` to the register of slot `s` makes slot `s` show
/// bank `k`: a read at offset `o` of the slot gives byte `o` of bank `k`.
/// Writing `k2` next makes the same read give byte `o` of bank `k2`.
pub proof fn lemma_bank_select(m: BusModel, s: int, k: u8, k2: u8, o: int)
    requires
        m.wf(),
        0 <= s < SLOT_COUNT,
        0 <= o < PAGE_SIZE,
    ensures
        m.after_write((BANK_SELECT_START + s) as u16, k).read(window_address(s, o))
            == BusRead::Value(m.banks[k as int].bytes[o]),
        m.after_write((BANK_SELECT_START + s) as u16, k).after_write(
            (BANK_SELECT_START + s) as u16,
            k2,
        ).read(window_address(s, o)) == BusRead::Value(m.banks[k2 as int].bytes[o]),
{
    let a = window_address(s, o);
    assert(slot_of(a) == s && offset_of(a) == o) by (nonlinear_arith)
        requires
            a == BANKS_START + s * PAGE_SIZE + o,
            0 <= s < SLOT_COUNT,
            0 <= o < PAGE_SIZE,
    ;
}

/// A write through a writable slot to a durable bank stores the byte in the
/// bank, so that the next read gives it, and asks for that bank to be
/// flushed to its file.
pub proof fn lemma_durable_write_flushed(m: BusModel, s: int, o: int, v: u8)
    requires
        m.wf(),
        FIRST_WRITABLE_SLOT <= s < SLOT_COUNT,
        0 <= o < PAGE_SIZE,
        m.banks[m.selected(s)].writable,
        m.banks[m.selected(s)].durable,
    ensures
        m.after_write(window_address(s, o), v).banks[m.selected(s)].bytes[o] == v,
        m.after_write(window_address(s, o), v).read(window_address(s, o)) == BusRead::Value(v),
        m.write_effect(window_address(s, o), v) == BusWrite::Flush(m.selected(s) as u8),
{
    let a = window_address(s, o);
    assert(slot_of(a) == s && offset_of(a) == o) by (nonlinear_arith)
        requires
            a == BANKS_START + s * PAGE_SIZE + o,
            0 <= s < SLOT_COUNT,
            0 <= o < PAGE_SIZE,
    ;
}

/// A write to the console cell asks for exactly that byte to be sent to
/// standard output, and changes no stored byte.
pub proof fn lemma_stdio_output(m: BusModel, v: u8)
    requires
        m.wf(),
    ensures
        m.write_effect(STDIO, v) == BusWrite::Output(v),
        m.after_write(STDIO, v) == m,
{
}

} // verus!
