use vstd::prelude::*;
use byteorder::{ByteOrder, LittleEndian};

verus! {

/// Represents an error that occurred while reading or writing memory
#[derive(Clone, Copy, Debug, PartialEq, Eq, Structural)]
pub enum MemoryError {
    /// Indicates that no memory answers at the given address
    UnmappedAddress(u64),
    /// Indicates that a region could not be attached at the given base
    /// address because it overlaps a region that is already attached
    OverlappingRegion(u64),
}

/// The result of a memory access
pub type MemoryResult<T> = Result<T, MemoryError>;

/// What a read of `addr` gives on memory whose cells are `cells`
pub open spec fn cell_read(cells: Map<u64, u8>, addr: u64) -> Result<u8, MemoryError> {
    if cells.contains_key(addr) {
        Ok(cells[addr])
    } else {
        Err(MemoryError::UnmappedAddress(addr))
    }
}

/// The cells after a write of `val` at `addr`, and the result of the write
pub open spec fn cell_write(cells: Map<u64, u8>, addr: u64, val: u8) -> (Map<u64, u8>, Result<
    (),
    MemoryError,
>) {
    if cells.contains_key(addr) {
        (cells.insert(addr, val), Ok(()))
    } else {
        (cells, Err(MemoryError::UnmappedAddress(addr)))
    }
}

/// What a little-endian read of the two bytes at `addr` gives
pub open spec fn cell_read_le_u16(cells: Map<u64, u8>, addr: u64) -> Result<u16, MemoryError>
    recommends
        addr < u64::MAX,
{
    match cell_read(cells, addr) {
        Err(e) => Err(e),
        Ok(low) => match cell_read(cells, (addr + 1) as u64) {
            Err(e) => Err(e),
            Ok(high) => Ok((low + 256 * high) as u16),
        },
    }
}

/// The cells after a little-endian write of `val` at `addr` (low byte
/// first), and the result of the write
pub open spec fn cell_write_le_u16(cells: Map<u64, u8>, addr: u64, val: u16) -> (Map<u64, u8>, Result<
    (),
    MemoryError,
>)
    recommends
        addr < u64::MAX,
{
    let (c1, r1) = cell_write(cells, addr, (val % 256) as u8);
    match r1 {
        Err(e) => (c1, Err(e)),
        Ok(_) => cell_write(c1, (addr + 1) as u64, (val / 256) as u8),
    }
}

/// Assembles a 16-bit value from its low and high bytes with byteorder's
/// `LittleEndian::read_u16`; the contract states what that function
/// documents: the first byte is the least significant one.
#[verifier::external_body]
fn u16_from_le_bytes(low: u8, high: u8) -> (r: u16)
    ensures
        r == low + 256 * high,
{
    let buf: [u8; 2] = [low, high];
    LittleEndian::read_u16(&buf)
}

/// Splits a 16-bit value into its low and high bytes with byteorder's
/// `LittleEndian::write_u16`; the contract states what that function
/// documents: the least significant byte is written first.
#[verifier::external_body]
fn u16_to_le_bytes(n: u16) -> (r: (u8, u8))
    ensures
        r.0 == n % 256,
        r.1 == n / 256,
{
    let mut buf: [u8; 2] = [0, 0];
    LittleEndian::write_u16(&mut buf, n);
    (buf[0], buf[1])
}

/// An addressable memory of bytes
pub trait Memory {
    /// The cells of the memory: the addresses that answer, and what they hold
    spec fn cells(&self) -> Map<u64, u8>;

    /// Reads the byte at `addr`
    fn get_u8(&self, addr: u64) -> (r: MemoryResult<u8>)
        ensures
            r == cell_read(self.cells(), addr),
    ;

    /// Writes `val` at `addr`
    fn set_u8(&mut self, addr: u64, val: u8) -> (r: MemoryResult<()>)
        ensures
            (final(self).cells(), r) == cell_write(old(self).cells(), addr, val),
    ;

    /// Reads the little-endian 16-bit value at `addr` and `addr + 1`
    fn get_le_u16(&self, addr: u64) -> (r: MemoryResult<u16>)
        requires
            addr < u64::MAX,
        ensures
            r == cell_read_le_u16(self.cells(), addr),
    {
        let low = match self.get_u8(addr) {
            Ok(v) => v,
            Err(e) => return Err(e),
        };
        let high = match self.get_u8(addr + 1) {
            Ok(v) => v,
            Err(e) => return Err(e),
        };
        Ok(u16_from_le_bytes(low, high))
    }

    /// Writes `val` in little-endian order at `addr` and `addr + 1`
    fn set_le_u16(&mut self, addr: u64, val: u16) -> (r: MemoryResult<()>)
        requires
            addr < u64::MAX,
        ensures
            (final(self).cells(), r) == cell_write_le_u16(old(self).cells(), addr, val),
    {
        let (low, high) = u16_to_le_bytes(val);
        match self.set_u8(addr, low) {
            Ok(()) => {},
            Err(e) => return Err(e),
        }
        self.set_u8(addr + 1, high)
    }
}

/// A memory that holds no cells at all
pub struct EmptyMemory;

impl Memory for EmptyMemory {
    open spec fn cells(&self) -> Map<u64, u8> {
        Map::empty()
    }

    fn get_u8(&self, addr: u64) -> (r: MemoryResult<u8>) {
        Err(MemoryError::UnmappedAddress(addr))
    }

    fn set_u8(&mut self, addr: u64, val: u8) -> (r: MemoryResult<()>) {
        Err(MemoryError::UnmappedAddress(addr))
    }
}

/// The cells of a block of `data` whose first byte answers at `base`
pub open spec fn block_cells(base: int, data: Seq<u8>) -> Map<u64, u8> {
    Map::new(|a: u64| base <= a < base + data.len(), |a: u64| data[a - base])
}

/// A block of memory of a fixed size whose first byte answers at address zero
pub struct FixedMemory {
    data: Vec<u8>,
}

impl FixedMemory {
    /// The bytes of the block
    pub closed spec fn bytes(&self) -> Seq<u8> {
        self.data@
    }

    /// Creates a block of `size` bytes, all zero
    pub fn new(size: usize) -> (m: FixedMemory)
        ensures
            m.bytes() == Seq::new(size as nat, |i: int| 0u8),
    {
        FixedMemory { data: vec![0u8; size] }
    }

    /// The number of bytes in the block
    pub fn len(&self) -> (r: usize)
        ensures
            r == self.bytes().len(),
    {
        self.data.len()
    }
}

impl Memory for FixedMemory {
    open spec fn cells(&self) -> Map<u64, u8> {
        block_cells(0, self.bytes())
    }

    fn get_u8(&self, addr: u64) -> (r: MemoryResult<u8>) {
        if addr < self.data.len() as u64 {
            Ok(self.data[addr as usize])
        } else {
            Err(MemoryError::UnmappedAddress(addr))
        }
    }

    fn set_u8(&mut self, addr: u64, val: u8) -> (r: MemoryResult<()>) {
        if addr < self.data.len() as u64 {
            self.data.set(addr as usize, val);
            proof {
                assert(self.cells() =~= old(self).cells().insert(addr, val));
            }
            Ok(())
        } else {
            Err(MemoryError::UnmappedAddress(addr))
        }
    }
}

/// True when the region of `data` attached at `base` holds address `a`
pub open spec fn region_holds(base: u64, data: Seq<u8>, a: u64) -> bool {
    base <= a < base + data.len()
}

/// The byte that the first region, from the `i`th on, that holds `a` has at `a`
pub open spec fn lookup_from(regions: Seq<(u64, Seq<u8>)>, i: int, a: u64) -> Option<u8>
    decreases regions.len() - i,
{
    if i < 0 || i >= regions.len() {
        None
    } else if region_holds(regions[i].0, regions[i].1, a) {
        Some(regions[i].1[a - regions[i].0])
    } else {
        lookup_from(regions, i + 1, a)
    }
}

/// The cells of a memory made of the given regions
pub open spec fn regions_cells(regions: Seq<(u64, Seq<u8>)>) -> Map<u64, u8> {
    Map::new(|a: u64| lookup_from(regions, 0, a) is Some, |a: u64| lookup_from(regions, 0, a)->0)
}

/// True when the regions `[b1, b1 + l1)` and `[b2, b2 + l2)` share an address
pub open spec fn intervals_meet(b1: int, l1: int, b2: int, l2: int) -> bool {
    0 < l1 && 0 < l2 && b1 < b2 + l2 && b2 < b1 + l1
}

/// A memory made of blocks attached at chosen base addresses
pub struct VirtualMemory {
    regions: Vec<(u64, FixedMemory)>,
}

impl VirtualMemory {
    /// The attached regions, each as its base address and its bytes
    pub closed spec fn regions(&self) -> Seq<(u64, Seq<u8>)> {
        self.regions@.map_values(|r: (u64, FixedMemory)| (r.0, r.1.bytes()))
    }

    /// Creates a memory with no region attached
    pub fn new() -> (m: VirtualMemory)
        ensures
            m.cells() == Map::<u64, u8>::empty(),
    {
        let m = VirtualMemory { regions: Vec::new() };
        proof {
            assert(m.cells() =~= Map::<u64, u8>::empty());
        }
        m
    }

    /// Attaches `mem` so that its first byte answers at `base`; fails when it
    /// would share an address with a region already attached
    pub fn attach(&mut self, base: u64, mem: FixedMemory) -> (r: MemoryResult<()>)
        ensures
            r is Ok <==> (forall|a: u64|
                #![trigger old(self).cells().contains_key(a)]
                region_holds(base, mem.bytes(), a) ==> !old(self).cells().contains_key(a)),
            r is Ok ==> final(self).cells() == old(self).cells().union_prefer_right(
                block_cells(base as int, mem.bytes()),
            ),
            r is Err ==> r == Err::<(), MemoryError>(MemoryError::OverlappingRegion(base))
                && final(self).cells() == old(self).cells(),
    {
        let len = mem.len();
        let mut i: usize = 0;
        while i < self.regions.len()
            invariant
                0 <= i <= self.regions.len(),
                self.regions() == old(self).regions(),
                len == mem.bytes().len(),
                forall|k: int|
                    0 <= k < i ==> !intervals_meet(
                        self.regions()[k].0 as int,
                        self.regions()[k].1.len() as int,
                        base as int,
                        len as int,
                    ),
            decreases self.regions.len() - i,
        {
            let rb = self.regions[i].0;
            let rl = self.regions[i].1.len();
            proof {
                assert(self.regions()[i as int] == (rb, self.regions[i as int].1.bytes()));
            }
            if 0 < len && 0 < rl && (rb as u128) < (base as u128) + (len as u128) && (base as u128) < (
            rb as u128) + (rl as u128) {
                proof {
                    let a: u64 = if rb < base { base } else { rb };
                    Self::lemma_held_is_mapped(self.regions(), 0, i as int, a);
                    assert(region_holds(base, mem.bytes(), a));
                    assert(old(self).cells().contains_key(a));
                }
                return Err(MemoryError::OverlappingRegion(base));
            }
            i = i + 1;
        }
        let ghost before = self.regions();
        proof {
            assert forall|a: u64| region_holds(base, mem.bytes(), a) implies !old(self).cells().contains_key(a) by {
                if old(self).cells().contains_key(a) {
                    Self::lemma_mapped_is_held(before, 0, a);
                    let k = choose|k: int| 0 <= k < before.len() && region_holds(before[k].0, before[k].1, a);
                    assert(intervals_meet(before[k].0 as int, before[k].1.len() as int, base as int, len as int));
                }
            }
        }
        self.regions.push((base, mem));
        proof {
            assert(self.regions() =~= before.push((base, mem.bytes())));
            assert forall|a: u64| #[trigger] self.cells().contains_key(a) == old(self).cells().union_prefer_right(
                block_cells(base as int, mem.bytes()),
            ).contains_key(a) && (self.cells().contains_key(a) ==> self.cells()[a] == old(self).cells().union_prefer_right(
                block_cells(base as int, mem.bytes()),
            )[a]) by {
                Self::lemma_lookup_push(before, (base, mem.bytes()), 0, a);
                if region_holds(base, mem.bytes(), a) {
                    assert(!old(self).cells().contains_key(a));
                    assert(block_cells(base as int, mem.bytes()).contains_key(a));
                } else {
                    assert(!block_cells(base as int, mem.bytes()).contains_key(a));
                }
            }
            assert(self.cells() =~= old(self).cells().union_prefer_right(
                block_cells(base as int, mem.bytes()),
            ));
        }
        Ok(())
    }

    /// A region from the `i`th on that holds `a` makes `a` answer
    proof fn lemma_held_is_mapped(regions: Seq<(u64, Seq<u8>)>, i: int, k: int, a: u64)
        requires
            0 <= i <= k < regions.len(),
            region_holds(regions[k].0, regions[k].1, a),
        ensures
            lookup_from(regions, i, a) is Some,
        decreases k - i,
    {
        if i < k && !region_holds(regions[i].0, regions[i].1, a) {
            Self::lemma_held_is_mapped(regions, i + 1, k, a);
        }
    }

    /// An address answers only where some region holds it
    proof fn lemma_mapped_is_held(regions: Seq<(u64, Seq<u8>)>, i: int, a: u64)
        requires
            0 <= i,
            lookup_from(regions, i, a) is Some,
        ensures
            exists|k: int| i <= k < regions.len() && region_holds(regions[k].0, regions[k].1, a),
        decreases regions.len() - i,
    {
        if i < regions.len() && !region_holds(regions[i].0, regions[i].1, a) {
            Self::lemma_mapped_is_held(regions, i + 1, a);
        }
    }

    /// Adding a region at the end changes only the addresses that no earlier
    /// region holds
    proof fn lemma_lookup_push(regions: Seq<(u64, Seq<u8>)>, r: (u64, Seq<u8>), i: int, a: u64)
        requires
            0 <= i <= regions.len(),
        ensures
            lookup_from(regions.push(r), i, a) == if lookup_from(regions, i, a) is Some {
                lookup_from(regions, i, a)
            } else if region_holds(r.0, r.1, a) {
                Some(r.1[a - r.0])
            } else {
                None::<u8>
            },
        decreases regions.len() - i,
    {
        if i < regions.len() {
            assert(regions.push(r)[i] == regions[i]);
            if !region_holds(regions[i].0, regions[i].1, a) {
                Self::lemma_lookup_push(regions, r, i + 1, a);
            }
        } else {
            assert(regions.push(r)[i] == r);
            assert(lookup_from(regions.push(r), i + 1, a) is None);
        }
    }

    /// Writing at `a` in the first region that holds it changes the lookup at
    /// `a` alone
    proof fn lemma_lookup_update(regions: Seq<(u64, Seq<u8>)>, j: int, i: int, a: u64, val: u8, c: u64)
        requires
            0 <= i <= j < regions.len(),
            region_holds(regions[j].0, regions[j].1, a),
            forall|k: int| i <= k < j ==> !region_holds(#[trigger] regions[k].0, regions[k].1, a),
        ensures
            lookup_from(
                regions.update(j, (regions[j].0, regions[j].1.update(a - regions[j].0, val))),
                i,
                c,
            ) == if c == a {
                Some(val)
            } else {
                lookup_from(regions, i, c)
            },
        decreases j - i,
    {
        let upd = regions.update(j, (regions[j].0, regions[j].1.update(a - regions[j].0, val)));
        if i < j {
            assert(upd[i] == regions[i]);
            assert(!region_holds(regions[i].0, regions[i].1, a));
            if !region_holds(regions[i].0, regions[i].1, c) {
                Self::lemma_lookup_update(regions, j, i + 1, a, val, c);
            }
        } else {
            assert(upd[j].0 == regions[j].0);
            if !region_holds(regions[j].0, regions[j].1, c) {
                Self::lemma_lookup_suffix(regions, upd, j + 1, c);
            }
        }
    }

    /// Two lists of regions that agree from the `i`th on agree on every lookup from there
    proof fn lemma_lookup_suffix(r1: Seq<(u64, Seq<u8>)>, r2: Seq<(u64, Seq<u8>)>, i: int, c: u64)
        requires
            0 <= i,
            r1.len() == r2.len(),
            forall|k: int| i <= k < r1.len() ==> r1[k] == r2[k],
        ensures
            lookup_from(r1, i, c) == lookup_from(r2, i, c),
        decreases r1.len() - i,
    {
        if i < r1.len() {
            Self::lemma_lookup_suffix(r1, r2, i + 1, c);
        }
    }
}

impl Memory for VirtualMemory {
    closed spec fn cells(&self) -> Map<u64, u8> {
        regions_cells(self.regions())
    }

    fn get_u8(&self, addr: u64) -> (r: MemoryResult<u8>) {
        let mut i: usize = 0;
        while i < self.regions.len()
            invariant
                0 <= i <= self.regions.len(),
                lookup_from(self.regions(), 0, addr) == lookup_from(self.regions(), i as int, addr),
            decreases self.regions.len() - i,
        {
            let base = self.regions[i].0;
            proof {
                assert(self.regions()[i as int] == (base, self.regions[i as int].1.bytes()));
            }
            if addr >= base && addr - base < self.regions[i].1.len() as u64 {
                return self.regions[i].1.get_u8(addr - base);
            }
            i = i + 1;
        }
        Err(MemoryError::UnmappedAddress(addr))
    }

    fn set_u8(&mut self, addr: u64, val: u8) -> (r: MemoryResult<()>) {
        let mut i: usize = 0;
        while i < self.regions.len()
            invariant
                0 <= i <= self.regions.len(),
                self.regions() == old(self).regions(),
                self.cells() == old(self).cells(),
                lookup_from(self.regions(), 0, addr) == lookup_from(self.regions(), i as int, addr),
                forall|k: int|
                    0 <= k < i ==> !region_holds(
                        #[trigger] self.regions()[k].0,
                        self.regions()[k].1,
                        addr,
                    ),
            decreases self.regions.len() - i,
        {
            let base = self.regions[i].0;
            proof {
                assert(self.regions()[i as int] == (base, self.regions[i as int].1.bytes()));
            }
            if addr >= base && addr - base < self.regions[i].1.len() as u64 {
                let ghost before = self.regions();
                let (b, mut block) = self.regions.remove(i);
                let off = (addr - base) as usize;
                block.data.set(off, val);
                self.regions.insert(i, (b, block));
                proof {
                    assert(block.bytes() =~= before[i as int].1.update(addr - base, val));
                    assert(self.regions() =~= before.update(
                        i as int,
                        (before[i as int].0, before[i as int].1.update(addr - before[i as int].0, val)),
                    ));
                    assert forall|c: u64| #[trigger] self.cells().contains_key(c) == old(self).cells().insert(addr, val).contains_key(c)
                        && (self.cells().contains_key(c) ==> self.cells()[c] == old(self).cells().insert(addr, val)[c]) by {
                        Self::lemma_lookup_update(before, i as int, 0, addr, val, c);
                    }
                    assert(self.cells() =~= old(self).cells().insert(addr, val));
                }
                return Ok(());
            }
            i = i + 1;
        }
        Err(MemoryError::UnmappedAddress(addr))
    }
}

} // verus!
