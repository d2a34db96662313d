//! Memory bus of a small 6502-based console: a flat 64 KiB address space
//! with boot and cartridge ROM, RAM, bank-switched cartridge pages and
//! console I/O cells, decoded per access.
pub mod layout;
pub mod page;
pub mod text;
pub mod bus;
pub mod laws;
