//! User address spaces, kept as the list of page mappings they hold and the
//! physical page of their root table.

use vstd::prelude::*;
use crate::layout::{PGSIZE, MAXVA, SATP_SV39, page_aligned};

verus! {

/// Page may be read.
pub const PTE_R: u8 = 2;
/// Page may be written.
pub const PTE_W: u8 = 4;
/// Page may be executed.
pub const PTE_X: u8 = 8;
/// Page is reachable from user mode.
pub const PTE_U: u8 = 16;

/// One page of virtual addresses mapped to one physical page.
#[derive(Clone, Copy, PartialEq, Eq, Structural, Debug)]
pub struct Mapping {
    pub va: u64,
    pub pa: u64,
    pub perm: u8,
}

/// Why a page could not be mapped.
#[derive(Clone, Copy, PartialEq, Eq, Structural, Debug)]
pub enum MapError {
    /// An address does not start a page.
    Misaligned,
    /// The virtual address lies beyond the address space.
    OutOfRange,
    /// The virtual page is mapped already.
    Remap,
}

/// An address space as its contents.
pub ghost struct PageTableView {
    /// Physical page of the root table.
    pub root: u64,
    /// The mappings, in the order they were made.
    pub maps: Seq<Mapping>,
    /// Contents of the user page at virtual address 0, if one was loaded.
    pub image: Seq<u8>,
}

/// Whether `maps` holds a mapping of the page at `va`.
pub open spec fn maps_va(maps: Seq<Mapping>, va: u64) -> bool {
    exists|i: int| 0 <= i < maps.len() && (#[trigger] maps[i]).va == va
}

/// The value of the page-table-root register that selects the table whose
/// root page is at `root`.
pub open spec fn satp_of(root: u64) -> u64 {
    SATP_SV39 | (root >> 12u64)
}

/// A user address space.
pub struct PageTable {
    root: u64,
    maps: Vec<Mapping>,
    image: Vec<u8>,
}

impl View for PageTable {
    type V = PageTableView;

    closed spec fn view(&self) -> PageTableView {
        PageTableView { root: self.root, maps: self.maps@, image: self.image@ }
    }
}

impl PageTable {
    /// An empty address space whose root table is the page at `root`.
    pub fn uvm_create(root: u64) -> (pt: PageTable)
        ensures
            pt@ == (PageTableView { root, maps: Seq::empty(), image: Seq::empty() }),
    {
        PageTable { root, maps: Vec::new(), image: Vec::new() }
    }

    /// Whether the page at `va` is mapped.
    pub fn is_mapped(&self, va: u64) -> (r: bool)
        ensures
            r == maps_va(self@.maps, va),
    {
        let mut i: usize = 0;
        while i < self.maps.len()
            invariant
                0 <= i <= self.maps@.len(),
                forall|j: int| 0 <= j < i ==> (#[trigger] self.maps@[j]).va != va,
            decreases self.maps@.len() - i,
        {
            if self.maps[i].va == va {
                return true;
            }
            i = i + 1;
        }
        false
    }

    /// Maps the page at `va` to the physical page at `pa` with permissions
    /// `perm`.
    pub fn map_pages(&mut self, va: u64, pa: u64, perm: u8) -> (r: Result<(), MapError>)
        ensures
            r == if !page_aligned(va) || !page_aligned(pa) {
                Err::<(), MapError>(MapError::Misaligned)
            } else if va >= MAXVA {
                Err(MapError::OutOfRange)
            } else if maps_va(old(self)@.maps, va) {
                Err(MapError::Remap)
            } else {
                Ok(())
            },
            r is Ok ==> final(self)@ == (PageTableView {
                maps: old(self)@.maps.push(Mapping { va, pa, perm }),
                ..old(self)@
            }),
            r is Err ==> final(self)@ == old(self)@,
    {
        if va % PGSIZE != 0 || pa % PGSIZE != 0 {
            return Err(MapError::Misaligned);
        }
        if va >= MAXVA {
            return Err(MapError::OutOfRange);
        }
        if self.is_mapped(va) {
            return Err(MapError::Remap);
        }
        self.maps.push(Mapping { va, pa, perm });
        Ok(())
    }

    /// Loads `code` into the physical page at `pa` and maps it at virtual
    /// address 0, readable, writable, executable and reachable from user mode.
    pub fn uvm_init(&mut self, code: &[u8], pa: u64)
        requires
            code@.len() < PGSIZE,
            page_aligned(pa),
            !maps_va(old(self)@.maps, 0),
        ensures
            final(self)@ == (PageTableView {
                maps: old(self)@.maps.push(Mapping { va: 0, pa, perm: PTE_W | PTE_R | PTE_X | PTE_U }),
                image: code@,
                ..old(self)@
            }),
    {
        let r = self.map_pages(0, pa, PTE_W | PTE_R | PTE_X | PTE_U);
        assert(r is Ok);
        let mut image: Vec<u8> = Vec::new();
        let mut i: usize = 0;
        while i < code.len()
            invariant
                0 <= i <= code@.len(),
                image@ == code@.subrange(0, i as int),
            decreases code@.len() - i,
        {
            image.push(code[i]);
            i = i + 1;
        }
        assert(image@ =~= code@);
        self.image = image;
    }

    /// Physical page of the root table.
    pub fn root(&self) -> (r: u64)
        ensures
            r == self@.root,
    {
        self.root
    }

    /// The mappings, in the order they were made.
    pub fn mappings(&self) -> (r: &Vec<Mapping>)
        ensures
            r@ == self@.maps,
    {
        &self.maps
    }

    /// Contents of the user page at virtual address 0.
    pub fn image(&self) -> (r: &Vec<u8>)
        ensures
            r@ == self@.image,
    {
        &self.image
    }

    /// The page-table-root register value that selects this address space.
    pub fn as_satp(&self) -> (r: u64)
        ensures
            r == satp_of(self@.root),
    {
        SATP_SV39 | (self.root >> 12u64)
    }
}

} // verus!
