//! Libmetal I/O regions: a window of device memory seen at a virtual
//! address, with the table of physical addresses of its pages.
//!
//! Addresses are held as `usize` values; the accesses themselves are left
//! to the caller, which gets from here the addresses to touch.

use vstd::prelude::*;
use vstd::arithmetic::power2::pow2;

verus! {

#[derive(Debug)]
pub enum IoError {
    InvalidVirt,
    InvalidPhys,
    InvalidPageShift,
    BadOffset,
    BadAddress,
}

/// The memory orderings of an atomic access, as `core::sync::atomic`
/// names them.
#[derive(Clone, Copy, Debug)]
pub enum MemoryOrder {
    Relaxed,
    Release,
    Acquire,
    AcqRel,
    SeqCst,
}

/// Libmetal I/O region structure
pub struct IoRegion {
    /// base virtual address
    pub virt: usize,
    /// table of base physical address of each of the pages in the I/O region
    pub physmap: Vec<usize>,
    /// size of the I/O region
    pub size: usize,
    /// page shift of I/O region
    pub page_shift: usize,
    /// page mask of I/O region
    pub page_mask: usize,
    /// memory attribute of the I/O region
    pub mem_flags: usize,
}

/// The mask of the low `page_shift` bits of an offset; all bits where the
/// shift covers the whole word.
pub open spec fn page_mask_for(page_shift: usize) -> usize {
    if page_shift >= usize::BITS {
        usize::MAX
    } else {
        (pow2(page_shift as nat) - 1) as usize
    }
}

/// The inputs on which a fill of `length` bytes from `offset` stays within
/// the address space: the address of `offset` and that of the last byte
/// filled are at most `usize::MAX`.
pub open spec fn fill_in_range(virt: usize, offset: usize, length: usize) -> bool {
    virt + offset <= usize::MAX && (length > 0 ==> virt + offset + length - 1 <= usize::MAX)
}

/// The byte stores of a fill: `value` at each of the `length` addresses
/// from that of `offset` on, in increasing order.
pub open spec fn fill_stores(virt: usize, offset: usize, length: usize, value: u8) -> Seq<(usize, u8)> {
    Seq::new(length as nat, |k: int| ((virt + offset + k) as usize, value))
}

/// What a fill of the region at `virt` of `size` bytes gives: `BadOffset`
/// exactly for offsets beyond the size, else the stores of `fill_stores`.
pub open spec fn fill_contract(
    virt: usize,
    size: usize,
    value: u8,
    offset: usize,
    length: usize,
    r: Result<Vec<(usize, u8)>, IoError>,
) -> bool {
    &&& offset > size <==> (r matches Err(IoError::BadOffset))
    &&& offset <= size ==> (r matches Ok(stores) && stores@ == fill_stores(virt, offset, length, value))
}

/// A fill's result with the stores taken by their view.
pub open spec fn fill_outcome(r: Result<Vec<(usize, u8)>, IoError>) -> Result<Seq<(usize, u8)>, IoError> {
    match r {
        Ok(stores) => Ok(stores@),
        Err(e) => Err(e),
    }
}

/// The orderings that an atomic load accepts.
pub open spec fn load_ordering(order: MemoryOrder) -> bool {
    !(order is Release) && !(order is AcqRel)
}

/// The orderings that an atomic store accepts.
pub open spec fn store_ordering(order: MemoryOrder) -> bool {
    !(order is Acquire) && !(order is AcqRel)
}

fn low_mask(page_shift: usize) -> (r: usize)
    ensures
        r == page_mask_for(page_shift),
{
    if page_shift >= usize::BITS as usize {
        usize::MAX
    } else {
        proof {
            vstd::bits::lemma_usize_pow2_no_overflow(page_shift as nat);
            vstd::bits::lemma_usize_shl_is_mul(1, page_shift);
        }
        (1usize << page_shift) - 1
    }
}

impl IoRegion {
    /// Sets up an I/O region. The virtual address and every page address
    /// must be non-zero. A page shift that covers the whole word gives a
    /// mask of all bits.
    pub fn new(virt: usize, physmap: Vec<usize>, size: usize, page_shift: usize, mem_flags: usize) -> (r: Result<IoRegion, IoError>)
        ensures
            virt == 0 ==> r matches Err(IoError::InvalidVirt),
            virt != 0 && (exists|i: int| 0 <= i < physmap@.len() && physmap@[i] == 0) ==> r matches Err(IoError::InvalidPhys),
            virt != 0 && (forall|i: int| 0 <= i < physmap@.len() ==> physmap@[i] != 0) ==> r matches Ok(_),
            r matches Ok(io) ==> {
                &&& io.virt == virt
                &&& io.physmap@ == physmap@
                &&& io.size == size
                &&& io.page_shift == page_shift
                &&& io.page_mask == page_mask_for(page_shift)
                &&& io.mem_flags == mem_flags
            },
    {
        if virt == 0 {
            return Err(IoError::InvalidVirt);
        }
        let mut i: usize = 0;
        while i < physmap.len()
            invariant
                i <= physmap@.len(),
                virt != 0,
                forall|j: int| 0 <= j < i ==> physmap@[j] != 0,
            decreases physmap@.len() - i,
        {
            if physmap[i] == 0 {
                return Err(IoError::InvalidPhys);
            }
            i = i + 1;
        }
        let page_mask = low_mask(page_shift);
        Ok(IoRegion { virt, physmap, size, page_shift, page_mask, mem_flags })
    }

    /// The virtual address of `offset`; refused for offsets below the size.
    pub fn get_virt_address(&self, offset: usize) -> (r: Result<usize, IoError>)
        requires
            offset >= self.size ==> self.virt + offset <= usize::MAX,
        ensures
            offset < self.size ==> r matches Err(IoError::BadOffset),
            offset >= self.size ==> r == Ok::<usize, IoError>((self.virt + offset) as usize),
    {
        if offset < self.size {
            return Err(IoError::BadOffset);
        }
        Ok(self.virt + offset)
    }

    /// The offset in the region of a virtual address.
    pub fn get_offset_from_address(&self, address: usize) -> (r: Result<usize, IoError>)
        ensures
            (address < self.virt || address > self.virt.wrapping_add(self.size)) ==> r matches Err(IoError::BadAddress),
            !(address < self.virt || address > self.virt.wrapping_add(self.size)) && address - self.virt >= self.size
                ==> r matches Err(IoError::BadOffset),
            !(address < self.virt || address > self.virt.wrapping_add(self.size)) && address - self.virt < self.size
                ==> r == Ok::<usize, IoError>((address - self.virt) as usize),
    {
        if address < self.virt || address > self.virt.wrapping_add(self.size) {
            return Err(IoError::BadAddress);
        }
        let offset = address - self.virt;
        if offset >= self.size {
            return Err(IoError::BadOffset);
        }
        Ok(offset)
    }

    /// The physical address of `offset`: the base address of its page plus
    /// its bits under the page mask.
    pub fn get_physical_address(&self, offset: usize) -> (r: Result<usize, IoError>)
        requires
            self.page_shift < usize::BITS,
            (offset >> self.page_shift) < self.physmap@.len(),
            self.physmap@[(offset >> self.page_shift) as int] + (offset & self.page_mask) <= usize::MAX,
        ensures
            r == Ok::<usize, IoError>((self.physmap@[(offset >> self.page_shift) as int] + (offset & self.page_mask)) as usize),
    {
        let page = offset >> self.page_shift;
        let base_address = self.physmap[page];
        Ok(base_address + (offset & self.page_mask))
    }

    pub fn get_page_shift(&self) -> (r: usize)
        ensures
            r == self.page_shift,
    {
        self.page_shift
    }

    /// Changes the page shift, unless it exceeds the number of bits of a
    /// word. The page mask is left as it is.
    pub fn set_page_shift(&mut self, page_shift: usize) -> (r: Result<(), IoError>)
        ensures
            page_shift > usize::BITS ==> (r matches Err(IoError::InvalidPageShift)),
            page_shift > usize::BITS ==> final(self).page_shift == old(self).page_shift,
            page_shift <= usize::BITS ==> (r matches Ok(())),
            page_shift <= usize::BITS ==> final(self).page_shift == page_shift,
            final(self).virt == old(self).virt,
            final(self).physmap@ == old(self).physmap@,
            final(self).size == old(self).size,
            final(self).page_mask == old(self).page_mask,
            final(self).mem_flags == old(self).mem_flags,
    {
        if page_shift > usize::BITS as usize {
            return Err(IoError::InvalidPageShift);
        }
        self.page_shift = page_shift;
        Ok(())
    }

    /// The address at `offset` in the region, which an atomic load with
    /// the given ordering reads; a load takes no `Release` or `AcqRel`
    /// ordering.
    pub fn read(&self, offset: usize, order: MemoryOrder) -> (r: usize)
        requires
            self.virt + offset <= usize::MAX,
            load_ordering(order),
        ensures
            r == self.virt + offset,
    {
        self.virt + offset
    }

    pub fn read_relaxed(&self, offset: usize) -> (r: usize)
        requires
            self.virt + offset <= usize::MAX,
        ensures
            r == self.virt + offset,
    {
        self.read(offset, MemoryOrder::Relaxed)
    }

    /// Computes the address at `offset` in the region, as a store with the
    /// given ordering does; `data` is left unchanged. A store takes no
    /// `Acquire` or `AcqRel` ordering.
    pub fn write<T>(&self, data: &mut T, offset: usize, order: MemoryOrder)
        requires
            self.virt + offset <= usize::MAX,
            store_ordering(order),
        ensures
            *final(data) == *old(data),
    {
        let _address = self.virt + offset;
    }

    pub fn write_relaxed<T>(&self, data: &mut T, offset: usize)
        requires
            self.virt + offset <= usize::MAX,
        ensures
            *final(data) == *old(data),
    {
        self.write(data, offset, MemoryOrder::Relaxed)
    }

    /// Whether a fill of `length` bytes from `offset` stays within the
    /// address space, as `fill` requires.
    pub fn fill_fits(&self, offset: usize, length: usize) -> (r: bool)
        ensures
            r == fill_in_range(self.virt, offset, length),
    {
        if offset > usize::MAX - self.virt {
            return false;
        }
        let start = self.virt + offset;
        length == 0 || length - 1 <= usize::MAX - start
    }

    /// The byte stores of a fill of `length` bytes of `value` from
    /// `offset`, as a memset does them: one store of `value` at each of the
    /// `length` addresses from that of `offset` on, in increasing order.
    /// Offsets beyond the size are refused.
    pub fn fill(&self, value: u8, offset: usize, length: usize) -> (r: Result<Vec<(usize, u8)>, IoError>)
        requires
            offset <= self.size ==> fill_in_range(self.virt, offset, length),
        ensures
            fill_contract(self.virt, self.size, value, offset, length, r),
    {
        if offset > self.size {
            return Err(IoError::BadOffset);
        }
        let start = self.virt + offset;
        let mut stores: Vec<(usize, u8)> = Vec::new();
        let mut i: usize = 0;
        while i < length
            invariant
                i <= length,
                start == self.virt + offset,
                fill_in_range(self.virt, offset, length),
                stores@ == fill_stores(self.virt, offset, length, value).subrange(0, i as int),
            decreases length - i,
        {
            stores.push((start + i, value));
            i = i + 1;
            assert(stores@ =~= fill_stores(self.virt, offset, length, value).subrange(0, i as int));
        }
        assert(stores@ =~= fill_stores(self.virt, offset, length, value));
        Ok(stores)
    }

    /// The stores of `fill`, with the fence that follows them sequentially
    /// consistent: the same result as `fill` on every input.
    pub fn fill_sesq_cst(&self, value: u8, offset: usize, length: usize) -> (r: Result<Vec<(usize, u8)>, IoError>)
        requires
            offset <= self.size ==> fill_in_range(self.virt, offset, length),
        ensures
            fill_contract(self.virt, self.size, value, offset, length, r),
    {
        self.fill(value, offset, length)
    }
}

/// `fill_sesq_cst` does what `fill` does: on every region and every input
/// that they accept, the result of one and that of the other are the same,
/// `BadOffset` exactly when the offset is beyond the size, else the same
/// stores in the same order.
pub proof fn law_fill_sesq_cst_is_fill(
    io: IoRegion,
    value: u8,
    offset: usize,
    length: usize,
    filled: Result<Vec<(usize, u8)>, IoError>,
    filled_seq_cst: Result<Vec<(usize, u8)>, IoError>,
)
    requires
        offset <= io.size ==> fill_in_range(io.virt, offset, length),
        fill_contract(io.virt, io.size, value, offset, length, filled),
        fill_contract(io.virt, io.size, value, offset, length, filled_seq_cst),
    ensures
        fill_outcome(filled_seq_cst) == fill_outcome(filled),
        (filled_seq_cst matches Err(IoError::BadOffset)) <==> offset > io.size,
{
}

/// In a region set up by `new` with a page shift below the word size, the
/// physical address of an offset is the base address of page
/// `offset / 2^page_shift` plus `offset % 2^page_shift`.
pub proof fn law_physical_address_splits_offset(io: IoRegion, offset: usize)
    requires
        io.page_shift < usize::BITS,
        io.page_mask == page_mask_for(io.page_shift),
    ensures
        (offset >> io.page_shift) == offset as nat / pow2(io.page_shift as nat),
        (offset & io.page_mask) == offset as nat % pow2(io.page_shift as nat),
{
    vstd::bits::lemma_usize_shr_is_div(offset, io.page_shift);
    vstd::bits::lemma_usize_low_bits_mask_is_mod(offset, io.page_shift as nat);
    vstd::bits::lemma_usize_pow2_no_overflow(io.page_shift as nat);
}

} // verus!
