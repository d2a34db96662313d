//! Bank pages: fixed-size byte pages held in memory maps, each read-only,
//! volatile read-write, or durable (backed by a file).
use vstd::prelude::*;
use memmap::MmapMut;
use crate::layout::PAGE_SIZE;

verus! {

#[verifier::external_type_specification]
#[verifier::external_body]
pub struct ExMmapMut(memmap::MmapMut);

#[verifier::external_type_specification]
#[verifier::external_body]
pub struct ExIoError(std::io::Error);

/// The bytes that a memory map holds. For a file-backed map this assumes,
/// as the bus does, that no other process writes the file while it is mapped.
pub uninterp spec fn mapped_bytes(m: memmap::MmapMut) -> Seq<u8>;

/// Relies on `MmapMut`'s `Deref` impl: the slice covers the whole map.
#[verifier::external_body]
fn map_slice(m: &MmapMut) -> (r: &[u8])
    ensures
        r@ == mapped_bytes(*m),
{
    &m[..]
}

/// Relies on `MmapMut`'s `DerefMut` impl: storing through the slice changes
/// that one byte of the map.
#[verifier::external_body]
fn map_store(m: &mut MmapMut, i: usize, v: u8)
    requires
        i < mapped_bytes(*old(m)).len(),
    ensures
        mapped_bytes(*final(m)) == mapped_bytes(*old(m)).update(i as int, v),
{
    m[i] = v;
}

/// Relies on `MmapMut::map_anon`: an anonymous shared mapping of `len`
/// bytes (`mmap` with `MAP_ANON`, whose pages start zero-filled); a zero
/// length is refused with an error.
#[verifier::external_body]
fn map_anonymous(len: usize) -> (r: Result<MmapMut, std::io::Error>)
    ensures
        r is Ok ==> mapped_bytes(r->Ok_0) == Seq::new(len as nat, |i: int| 0u8),
        len == 0 ==> r is Err,
{
    MmapMut::map_anon(len)
}

/// What a bank is, as the bus sees it.
pub struct PageModel {
    pub bytes: Seq<u8>,
    pub writable: bool,
    pub durable: bool,
}

/// A bank: one page of bytes, with its access policy. A durable bank is
/// backed by a file; after each write to it, the map must be flushed.
pub struct Bank {
    pub page: MmapMut,
    pub writable: bool,
    pub durable: bool,
}

impl View for Bank {
    type V = PageModel;

    open spec fn view(&self) -> PageModel {
        PageModel { bytes: mapped_bytes(self.page), writable: self.writable, durable: self.durable }
    }
}

impl Bank {
    /// A bank is well formed when its page is exactly one page long.
    pub open spec fn wf(&self) -> bool {
        self@.bytes.len() == PAGE_SIZE
    }

    /// Wraps an existing map as a bank with the given policy.
    pub fn new(page: MmapMut, writable: bool, durable: bool) -> (r: Bank)
        ensures
            r.page == page,
            r.writable == writable,
            r.durable == durable,
    {
        Bank { page, writable, durable }
    }

    /// A fresh volatile bank: a zero-filled anonymous page, writable and
    /// not durable. Whatever was written to earlier banks, a fresh one
    /// starts all zero. Fails only if the system refuses the mapping.
    pub fn anonymous() -> (r: Result<Bank, std::io::Error>)
        ensures
            r is Ok ==> {
                &&& r->Ok_0.wf()
                &&& r->Ok_0@.bytes == Seq::new(PAGE_SIZE as nat, |i: int| 0u8)
                &&& r->Ok_0@.writable
                &&& !r->Ok_0@.durable
            },
    {
        match map_anonymous(PAGE_SIZE) {
            Ok(page) => Ok(Bank { page, writable: true, durable: false }),
            Err(e) => Err(e),
        }
    }

    /// The page's bytes.
    pub fn bytes(&self) -> (r: &[u8])
        ensures
            r@ == self@.bytes,
    {
        map_slice(&self.page)
    }

    /// The byte at `offset`.
    pub fn get(&self, offset: usize) -> (r: u8)
        requires
            offset < self@.bytes.len(),
        ensures
            r == self@.bytes[offset as int],
    {
        map_slice(&self.page)[offset]
    }

    /// Stores `v` at `offset`; the policy flags are unchanged.
    pub fn set(&mut self, offset: usize, v: u8)
        requires
            offset < old(self)@.bytes.len(),
        ensures
            final(self)@ == (PageModel { bytes: old(self)@.bytes.update(offset as int, v), ..old(self)@ }),
    {
        map_store(&mut self.page, offset, v);
    }
}

} // verus!
