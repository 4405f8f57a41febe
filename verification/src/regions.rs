//! The region table: a static partition of the 16-bit address space into
//! named contiguous ranges, and byte-addressable storage blocks bound to one
//! such range each.

use vstd::prelude::*;

verus! {

// The whole 16-bit address space.
pub const ALL_MEM_BEGIN: u16 = 0x0000;
pub const ALL_MEM_END: u16 = 0xFFFF;

// The top-level memory classes, in address order.
pub const ROM_SPACE_BEGIN: u16 = 0x0000;
pub const ROM_SPACE_END: u16 = 0x7FFF;
pub const VRAM_BEGIN: u16 = 0x8000;
pub const VRAM_END: u16 = 0x9FFF;
pub const CART_RAM_BEGIN: u16 = 0xA000;
pub const CART_RAM_END: u16 = 0xBFFF;
pub const WORK_RAM_BEGIN: u16 = 0xC000;
pub const WORK_RAM_END: u16 = 0xDFFF;
pub const ECHO_RAM_BEGIN: u16 = 0xE000;
pub const ECHO_RAM_END: u16 = 0xFDFF;
pub const OAM_BEGIN: u16 = 0xFE00;
pub const OAM_END: u16 = 0xFE9F;
pub const UNUSABLE_BEGIN: u16 = 0xFEA0;
pub const UNUSABLE_END: u16 = 0xFEFF;
pub const IO_REGS_BEGIN: u16 = 0xFF00;
pub const IO_REGS_END: u16 = 0xFF7F;
pub const HIGH_RAM_BEGIN: u16 = 0xFF80;
pub const HIGH_RAM_END: u16 = 0xFFFF;

// Named windows inside the ROM space.
pub const BOOT_ROM_AREA_BEGIN: u16 = 0x0000;
pub const BOOT_ROM_AREA_END: u16 = 0x00FF;
pub const HEADER_BEGIN: u16 = 0x0100;
pub const HEADER_END: u16 = 0x014F;

/// An immutable, inclusive range of the 16-bit address space. It classifies
/// a whole memory class or names an individual or grouped register window.
#[derive(Debug, PartialEq, Eq, Structural)]
pub struct MemoryRegion {
    pub begin: u16,
    pub end: u16,
}

impl MemoryRegion {
    /// A region is well formed when it is non-empty: `begin <= end`.
    pub open spec fn wf(self) -> bool {
        self.begin <= self.end
    }

    pub open spec fn spec_contains(self, address: u16) -> bool {
        self.begin <= address <= self.end
    }

    /// The number of addresses the region spans (up to 0x10000 for the whole
    /// space, hence an unbounded integer).
    pub open spec fn spec_size(self) -> int {
        self.end - self.begin + 1
    }

    pub fn new(begin: u16, end: u16) -> (r: Self)
        requires
            begin <= end,
        ensures
            r == (MemoryRegion { begin, end }),
            r.wf(),
    {
        MemoryRegion { begin, end }
    }

    pub fn contains(&self, address: u16) -> (r: bool)
        ensures
            r == self.spec_contains(address),
    {
        self.begin <= address && self.end >= address
    }

    /// Translates an absolute address to an offset relative to the region's
    /// start. The caller must already have established, via the region table,
    /// that the address is in range: an out-of-range access is a programming
    /// error, not a runtime condition.
    pub fn local_address(&self, address: u16) -> (r: u16)
        requires
            self.spec_contains(address),
        ensures
            r == address - self.begin,
    {
        address - self.begin
    }

    /// The region's size, truncated to 16 bits: the full address space reads
    /// back as 0.
    pub fn size(&self) -> (r: u16)
        requires
            self.wf(),
        ensures
            r == self.spec_size() % 0x10000,
    {
        if self.end - self.begin == 0xFFFF {
            0
        } else {
            self.end - self.begin + 1
        }
    }

    /// The region's size as a machine word, exact even for the full space.
    pub fn usize(&self) -> (r: usize)
        requires
            self.wf(),
        ensures
            r == self.spec_size(),
    {
        (self.end - self.begin) as usize + 1
    }
}

/// A byte-addressable storage block bound to one region of the address space,
/// owned exclusively by whichever peripheral backs that memory class. Every
/// byte powers on to 0xFF, the floating-bus convention for uninitialized RAM.
#[derive(Debug)]
pub struct MappedMemoryRegion {
    pub region: MemoryRegion,
    pub mem: Vec<u8>,
}

impl View for MappedMemoryRegion {
    type V = Seq<u8>;

    open spec fn view(&self) -> Seq<u8> {
        self.mem@
    }
}

impl MappedMemoryRegion {
    /// Well formed: the backing buffer holds exactly one byte per address of
    /// the bound region.
    pub open spec fn wf(self) -> bool {
        self.region.wf() && self@.len() == self.region.spec_size()
    }

    pub fn new(region: MemoryRegion) -> (r: MappedMemoryRegion)
        requires
            region.wf(),
        ensures
            r.region == region,
            r.wf(),
            forall|i: int| 0 <= i < r@.len() ==> r@[i] == 0xFF,
    {
        let size = region.usize();
        let mem = vec![0xFF; size];
        MappedMemoryRegion { region, mem }
    }

    pub fn local_address(&self, address: u16) -> (r: u16)
        requires
            self.region.spec_contains(address),
        ensures
            r == address - self.region.begin,
    {
        self.region.local_address(address)
    }

    pub fn get(&self, address: u16) -> (r: u8)
        requires
            self.wf(),
            self.region.spec_contains(address),
        ensures
            r == self@[address - self.region.begin],
    {
        let local = self.local_address(address);
        self.mem[local as usize]
    }

    pub fn set(&mut self, address: u16, value: u8)
        requires
            old(self).wf(),
            old(self).region.spec_contains(address),
        ensures
            final(self).region == old(self).region,
            final(self).wf(),
            final(self)@ == old(self)@.update(address - old(self).region.begin, value),
    {
        let local = self.local_address(address);
        self.mem[local as usize] = value;
    }

    pub fn fill(&mut self, value: u8)
        ensures
            final(self).region == old(self).region,
            final(self)@.len() == old(self)@.len(),
            forall|i: int| 0 <= i < final(self)@.len() ==> final(self)@[i] == value,
    {
        let mut i: usize = 0;
        while i < self.mem.len()
            invariant
                self.region == old(self).region,
                self@.len() == old(self)@.len(),
                i <= self@.len(),
                forall|j: int| 0 <= j < i ==> self@[j] == value,
            decreases self@.len() - i,
        {
            self.mem[i] = value;
            i = i + 1;
        }
    }
}

/// Round trip through a storage block: after a write of `value` at `address`,
/// a read at `address` yields `value`, and every other offset is untouched,
/// independent of prior writes.
pub proof fn lemma_set_get_round_trip(
    pre: MappedMemoryRegion,
    post: MappedMemoryRegion,
    address: u16,
    value: u8,
)
    requires
        pre.wf(),
        pre.region.spec_contains(address),
        post.region == pre.region,
        post@ == pre@.update(address - pre.region.begin, value),
    ensures
        post@[address - pre.region.begin] == value,
        forall|other: u16|
            pre.region.spec_contains(other) && other != address ==> post@[other
                - pre.region.begin] == pre@[other - pre.region.begin],
{
}

} // verus!
