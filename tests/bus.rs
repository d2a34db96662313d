use fun_bus::bus::{BusRead, BusWrite, Fun};
use fun_bus::page::Bank;

fn volatile_banks() -> Vec<Bank> {
    let mut banks = Vec::new();
    for _ in 0..256 {
        banks.push(Bank::anonymous().unwrap());
    }
    banks
}

fn bus_with(boot: &[u8], game: [u8; 0x1E00], banks: Vec<Bank>) -> Fun {
    Fun::new(boot, game, banks)
}

fn plain_bus() -> Fun {
    bus_with(&[0xAA; 0x100], [0x55; 0x1E00], volatile_banks())
}

fn value(r: BusRead) -> u8 {
    match r {
        BusRead::Value(v) => v,
        BusRead::Input => panic!("unexpected console read"),
    }
}

#[test]
fn boot_and_rom_writes_are_ignored() {
    let mut fun = plain_bus();
    for a in [0x0000u16, 0x0006, 0x00FF, 0x0200, 0x0300, 0x1FFF] {
        let before = fun.read(a);
        assert_eq!(fun.write(a, 0x12), BusWrite::Done);
        assert_eq!(fun.read(a), before);
    }
    assert_eq!(value(fun.read(0x0000)), 0xAA);
    assert_eq!(value(fun.read(0x1FFF)), 0x55);
}

#[test]
fn ram_reads_back_what_was_written() {
    let mut fun = plain_bus();
    for a in [0x0100u16, 0x01FF, 0x5000, 0x8000, 0xFFFE] {
        for v in [0u8, 1, 0x7F, 0x80, 0xFF] {
            assert_eq!(fun.write(a, v), BusWrite::Done);
            assert_eq!(fun.read(a), BusRead::Value(v));
        }
    }
}

#[test]
fn bank_select_switches_the_window() {
    let mut banks = volatile_banks();
    banks[3].set(0x10, 0x33);
    banks[200].set(0x10, 0xC8);
    let mut fun = bus_with(&[], [0; 0x1E00], banks);
    // slot 2 covers 0x2800..0x2C00
    assert_eq!(fun.write(0x4012, 3), BusWrite::Done);
    assert_eq!(fun.read(0x4012), BusRead::Value(3));
    assert_eq!(fun.read(0x2810), BusRead::Value(0x33));
    fun.write(0x4012, 200);
    assert_eq!(fun.read(0x2810), BusRead::Value(0xC8));
    // other slots still show bank 0
    assert_eq!(fun.read(0x2010), BusRead::Value(0));
}

#[test]
fn writes_through_read_only_slots_are_ignored() {
    let mut fun = plain_bus();
    fun.write(0x4010, 5);
    assert_eq!(fun.write(0x2004, 0x77), BusWrite::Done);
    assert_eq!(fun.read(0x2004), BusRead::Value(0));
    assert_eq!(fun.rom_bank(5)[4], 0);
    fun.write(0x4016, 5);
    assert_eq!(fun.write(0x3804, 0x77), BusWrite::Done);
    assert_eq!(fun.read(0x3804), BusRead::Value(0));
}

#[test]
fn writable_slot_reaches_volatile_bank() {
    let mut fun = plain_bus();
    fun.write(0x4017, 9);
    assert_eq!(fun.write(0x3C05, 0x42), BusWrite::Done);
    assert_eq!(fun.read(0x3C05), BusRead::Value(0x42));
    assert_eq!(fun.rom_bank(9)[5], 0x42);
    // the same bank seen through a read-only slot shows the byte too
    fun.write(0x4010, 9);
    assert_eq!(fun.read(0x2005), BusRead::Value(0x42));
}

#[test]
fn read_only_bank_ignores_writable_slot() {
    let mut banks = volatile_banks();
    banks[4] = Bank::new(Bank::anonymous().unwrap().page, false, false);
    let mut fun = bus_with(&[], [0; 0x1E00], banks);
    fun.write(0x4017, 4);
    assert_eq!(fun.write(0x3C00, 0x42), BusWrite::Done);
    assert_eq!(fun.read(0x3C00), BusRead::Value(0));
}

#[test]
fn durable_bank_write_asks_for_flush() {
    let mut banks = volatile_banks();
    banks[17] = Bank::new(Bank::anonymous().unwrap().page, true, true);
    let mut fun = bus_with(&[], [0; 0x1E00], banks);
    fun.write(0x4017, 17);
    assert_eq!(fun.write(0x3FFF, 0x99), BusWrite::Flush(17));
    assert_eq!(fun.read(0x3FFF), BusRead::Value(0x99));
    assert_eq!(fun.rom_bank(17)[0x3FF], 0x99);
}

#[test]
fn fresh_volatile_bank_is_zero() {
    let mut fun = plain_bus();
    fun.write(0x4017, 1);
    fun.write(0x3C00, 0xEE);
    assert_eq!(fun.rom_bank(1)[0], 0xEE);
    let fresh = Bank::anonymous().unwrap();
    assert_eq!(fresh.bytes().len(), 1024);
    assert!(fresh.bytes().iter().all(|b| *b == 0));
    assert!(fresh.writable);
    assert!(!fresh.durable);
    let again = bus_with(&[], [0; 0x1E00], volatile_banks());
    assert_eq!(again.rom_bank(1)[0], 0);
}

#[test]
fn bank_set_and_get() {
    let mut bank = Bank::anonymous().unwrap();
    bank.set(1023, 7);
    assert_eq!(bank.get(1023), 7);
    assert_eq!(bank.get(0), 0);
    assert_eq!(bank.bytes()[1023], 7);
}

#[test]
fn console_cell() {
    let mut fun = plain_bus();
    assert_eq!(fun.write(0x4019, b'A'), BusWrite::Output(b'A'));
    assert_eq!(fun.write(0x4019, 0), BusWrite::Output(0));
    assert_eq!(fun.read(0x4019), BusRead::Input);
}

#[test]
fn unmapped_addresses() {
    let mut fun = plain_bus();
    for a in [0x4000u16, 0x4003, 0x4006, 0x400A, 0x4018, 0x401A, 0x4200, 0x4FFF, 0xFFFF] {
        assert_eq!(fun.write(a, 0x5A), BusWrite::Done);
        assert_eq!(fun.read(a), BusRead::Value(0));
    }
}

#[test]
fn title_from_cartridge() {
    let mut game = [0u8; 0x1E00];
    game[6..16].copy_from_slice(b"SUPERGAME!");
    let fun = bus_with(&[], game, volatile_banks());
    assert_eq!(fun.title(), "SUPERGAME!");
}

#[test]
fn title_fallback_for_invalid_text() {
    let mut game = [0u8; 0x1E00];
    game[6..16].copy_from_slice(&[0xFF, 0xFE, b'A', b'B', b'C', b'D', b'E', b'F', b'G', b'H']);
    let fun = bus_with(&[], game, volatile_banks());
    assert_eq!(fun.title(), "??????????");
}

#[test]
fn images_are_placed_and_padded() {
    let boot: Vec<u8> = (0..0x180u32).map(|i| (i % 251) as u8 + 1).collect();
    let mut game = [0u8; 0x1E00];
    game[0] = 0x4C;
    game[0x1DFF] = 0x60;
    let fun = bus_with(&boot, game, volatile_banks());
    assert_eq!(fun.mmap.len(), 0x10000);
    assert_eq!(value(fun.read(0x0000)), 1);
    assert_eq!(value(fun.read(0x00FF)), boot[0xFF]);
    // the boot image is cut at its region's end
    assert_eq!(value(fun.read(0x0100)), 0);
    assert_eq!(value(fun.read(0x0200)), 0x4C);
    assert_eq!(value(fun.read(0x1FFF)), 0x60);
    let code = fun.game_code();
    assert_eq!(code.len(), 0x1F00);
    assert_eq!(code[0x100], 0x4C);
    let short = bus_with(&[9, 8, 7], [0; 0x1E00], volatile_banks());
    assert_eq!(value(short.read(0x0002)), 7);
    assert_eq!(value(short.read(0x0003)), 0);
}

#[test]
fn map_bank_follows_register() {
    let mut fun = plain_bus();
    fun.write(0x4013, 42);
    let bank = fun.map_bank(3);
    bank.set(0, 0xAB);
    assert_eq!(fun.rom_bank(42)[0], 0xAB);
    assert_eq!(fun.read(0x2C00), BusRead::Value(0xAB));
}

#[test]
fn random_register_values_stay_in_range() {
    let mut banks = volatile_banks();
    for (k, bank) in banks.iter_mut().enumerate() {
        bank.set(k % 1024, k as u8);
    }
    let mut fun = bus_with(&[], [0; 0x1E00], banks);
    let mut seed: u32 = 0x1234_5678;
    let mut seen = [false; 256];
    for _ in 0..4096 {
        seed = seed.wrapping_mul(1_664_525).wrapping_add(1_013_904_223);
        let slot = ((seed >> 8) % 8) as u16;
        let k = (seed >> 16) as u8;
        seen[k as usize] = true;
        fun.write(0x4010 + slot, k);
        let offset = (k as usize % 1024) as u16;
        let got = fun.read(0x2000 + slot * 0x400 + offset);
        assert_eq!(got, BusRead::Value(k));
    }
    for k in 0..=255u8 {
        fun.write(0x4010, k);
        assert_eq!(fun.read(0x2000 + k as u16), BusRead::Value(k));
    }
    assert!(seen.iter().filter(|s| **s).count() > 200);
}
