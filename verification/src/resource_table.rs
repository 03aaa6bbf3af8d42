//! Resource tables: the structure through which the host's remoteproc
//! driver learns which memory, devices and vrings this core needs, and the
//! address translation between physical and device addresses that the
//! carve-outs and device-memory entries describe.

use vstd::prelude::*;
use crate::string::String32;

verus! {

/// The types of entry that a resource table can hold.
#[derive(Debug)]
pub enum ResourceType {
    /// Get the host to allocate some memory
    CARVEOUT,
    /// Map some MMIO registers in
    DEVMEM,
    /// Point at a buffer where strings can be written
    TRACE,
    /// Map a VirtIO device
    VDEV,
}

impl ResourceType {
    /// The number by which the host's driver knows this type of entry.
    pub fn value(&self) -> (r: u32)
        ensures
            r == match *self {
                ResourceType::CARVEOUT => 0u32,
                ResourceType::DEVMEM => 1u32,
                ResourceType::TRACE => 2u32,
                ResourceType::VDEV => 3u32,
            },
    {
        match self {
            ResourceType::CARVEOUT => 0,
            ResourceType::DEVMEM => 1,
            ResourceType::TRACE => 2,
            ResourceType::VDEV => 3,
        }
    }
}

/// All resource tables start with this header, followed by the offset array.
#[derive(Debug)]
pub struct Header {
    pub ver: u32,
    pub num: usize,
    pub reserved: [u32; 2],
}

/// This is the structure for `ResourceType::CARVEOUT`.
#[derive(Debug)]
pub struct Carveout {
    pub rtype: ResourceType,
    pub da: usize,
    pub pa: usize,
    pub len: usize,
    pub flags: u32,
    pub reserved: u32,
    pub name: String32,
}

/// This is the structure for `ResourceType::DEVMEM`.
#[derive(Debug)]
pub struct Devmem {
    pub rtype: ResourceType,
    pub da: usize,
    pub pa: usize,
    pub len: usize,
    pub flags: u32,
    pub reserved: u32,
    pub name: String32,
}

/// This is the structure for `ResourceType::TRACE`.
#[derive(Debug)]
pub struct Trace {
    pub rtype: ResourceType,
    pub da: usize,
    pub len: usize,
    pub reserved: u32,
    pub name: String32,
}

/// This is the structure for `ResourceType::VDEV`. It is followed by the
/// appropriate number of `VdevVring` structures.
#[derive(Debug)]
pub struct Vdev {
    pub rtype: ResourceType,
    pub id: u32,
    pub notifyid: u32,
    pub dfeatures: u32,
    pub gfeatures: u32,
    pub config_len: u32,
    pub status: u8,
    pub num_of_vrings: u8,
    pub reserved: [u8; 2],
}

/// The individual vrings follow on from their `Vdev`.
#[derive(Debug)]
pub struct VdevVring {
    pub da: usize,
    pub align: usize,
    pub num: usize,
    pub notifyid: u32,
    pub reserved: u32,
}

/// The address translation of a window of `len` bytes that starts at
/// `from_base` on one side and at `to_base` on the other: `addr` is in the
/// window exactly when `from_base <= addr < from_base + len`.
pub open spec fn translate(from_base: usize, to_base: usize, len: usize, addr: usize) -> Option<usize> {
    if from_base <= addr && addr < from_base + len {
        Some((to_base + (addr - from_base)) as usize)
    } else {
        None
    }
}

/// The inputs on which translating `addr` computes no sum beyond
/// `usize::MAX`: the end of the window is computed once `addr` is at or
/// above its start, and the translated address once `addr` is inside it.
pub open spec fn translate_defined(from_base: usize, to_base: usize, len: usize, addr: usize) -> bool {
    from_base <= addr ==> {
        &&& from_base + len <= usize::MAX
        &&& addr < from_base + len ==> to_base + (addr - from_base) <= usize::MAX
    }
}

fn translate_defined_exec(from_base: usize, to_base: usize, len: usize, addr: usize) -> (r: bool)
    ensures
        r == translate_defined(from_base, to_base, len, addr),
{
    if addr < from_base {
        true
    } else if len > usize::MAX - from_base {
        false
    } else if addr < from_base + len {
        addr - from_base <= usize::MAX - to_base
    } else {
        true
    }
}

fn translate_exec(from_base: usize, to_base: usize, len: usize, addr: usize) -> (r: Option<usize>)
    requires
        translate_defined(from_base, to_base, len, addr),
    ensures
        r == translate(from_base, to_base, len, addr),
{
    if (addr >= from_base) && (addr < (from_base + len)) {
        let offset = addr - from_base;
        Some(to_base + offset)
    } else {
        None
    }
}

/// A window of memory seen at a physical address `pa` and at a device
/// address `da`, `len` bytes long.
pub trait Region {
    spec fn spec_pa(&self) -> usize;

    spec fn spec_da(&self) -> usize;

    spec fn spec_len(&self) -> usize;

    fn get_pa(&self) -> (r: usize)
        ensures
            r == self.spec_pa(),
    ;

    fn get_da(&self) -> (r: usize)
        ensures
            r == self.spec_da(),
    ;

    fn get_len(&self) -> (r: usize)
        ensures
            r == self.spec_len(),
    ;

    /// Convert a physical address (e.g. an L3/L4 address) to a device address the Cortex-M4 can use.
    fn pa_to_da(&self, given_pa: usize) -> (r: Option<usize>)
        requires
            translate_defined(self.spec_pa(), self.spec_da(), self.spec_len(), given_pa),
        ensures
            r == translate(self.spec_pa(), self.spec_da(), self.spec_len(), given_pa),
    {
        let pa = self.get_pa();
        let da = self.get_da();
        let len = self.get_len();
        translate_exec(pa, da, len, given_pa)
    }

    /// Convert a device address the Cortex-M4 can use to a physical address (e.g. an L3/L4 address).
    fn da_to_pa(&self, given_da: usize) -> (r: Option<usize>)
        requires
            translate_defined(self.spec_da(), self.spec_pa(), self.spec_len(), given_da),
        ensures
            r == translate(self.spec_da(), self.spec_pa(), self.spec_len(), given_da),
    {
        let pa = self.get_pa();
        let da = self.get_da();
        let len = self.get_len();
        translate_exec(da, pa, len, given_da)
    }
}

impl Region for Carveout {
    open spec fn spec_pa(&self) -> usize {
        self.pa
    }

    open spec fn spec_da(&self) -> usize {
        self.da
    }

    open spec fn spec_len(&self) -> usize {
        self.len
    }

    fn get_pa(&self) -> (r: usize) {
        self.pa
    }

    fn get_da(&self) -> (r: usize) {
        self.da
    }

    fn get_len(&self) -> (r: usize) {
        self.len
    }
}

impl Region for Devmem {
    open spec fn spec_pa(&self) -> usize {
        self.pa
    }

    open spec fn spec_da(&self) -> usize {
        self.da
    }

    open spec fn spec_len(&self) -> usize {
        self.len
    }

    fn get_pa(&self) -> (r: usize) {
        self.pa
    }

    fn get_da(&self) -> (r: usize) {
        self.da
    }

    fn get_len(&self) -> (r: usize) {
        self.len
    }
}

/// Translating a physical address into the window and back gives the
/// physical address again.
pub proof fn law_pa_to_da_then_da_to_pa(pa: usize, da: usize, len: usize, given_pa: usize)
    requires
        translate_defined(pa, da, len, given_pa),
        translate(pa, da, len, given_pa) is Some,
        translate_defined(da, pa, len, translate(pa, da, len, given_pa)->0),
    ensures
        translate(da, pa, len, translate(pa, da, len, given_pa)->0) == Some(given_pa),
{
}

/// Translating a device address out of the window and back gives the
/// device address again.
pub proof fn law_da_to_pa_then_pa_to_da(pa: usize, da: usize, len: usize, given_da: usize)
    requires
        translate_defined(da, pa, len, given_da),
        translate(da, pa, len, given_da) is Some,
        translate_defined(pa, da, len, translate(da, pa, len, given_da)->0),
    ensures
        translate(pa, da, len, translate(da, pa, len, given_da)->0) == Some(given_da),
{
}


/// Translation between the physical addresses of the system and the
/// device addresses that this core uses.
pub trait AddressMapper {
    /// The device address that `pa` maps to, if any.
    spec fn spec_pa_to_da(&self, pa: usize) -> Option<usize>;

    /// The physical address that `da` maps to, if any.
    spec fn spec_da_to_pa(&self, da: usize) -> Option<usize>;

    /// The physical addresses that `pa_to_da` accepts.
    spec fn pa_to_da_defined(&self, pa: usize) -> bool;

    /// The device addresses that `da_to_pa` accepts.
    spec fn da_to_pa_defined(&self, da: usize) -> bool;

    /// Whether `pa_to_da` accepts `pa`.
    fn pa_to_da_is_defined(&self, pa: usize) -> (r: bool)
        ensures
            r == self.pa_to_da_defined(pa),
    ;

    /// Whether `da_to_pa` accepts `da`.
    fn da_to_pa_is_defined(&self, da: usize) -> (r: bool)
        ensures
            r == self.da_to_pa_defined(da),
    ;

    /// Convert a physical address (e.g. an L3/L4 address) to a device address the Cortex-M4 can use.
    fn pa_to_da(&self, pa: usize) -> (r: Option<usize>)
        requires
            self.pa_to_da_defined(pa),
        ensures
            r == self.spec_pa_to_da(pa),
    ;

    /// Convert a device address the Cortex-M4 can use to a physical address (e.g. an L3/L4 address).
    fn da_to_pa(&self, da: usize) -> (r: Option<usize>)
        requires
            self.da_to_pa_defined(da),
        ensures
            r == self.spec_da_to_pa(da),
    ;
}

/// A window as a triple: physical address, device address, length.
pub type Span = (usize, usize, usize);

/// The translation of `addr` through `span`, from physical to device
/// addresses when `to_device` holds, else the other way.
pub open spec fn span_translate(span: Span, addr: usize, to_device: bool) -> Option<usize> {
    if to_device {
        translate(span.0, span.1, span.2, addr)
    } else {
        translate(span.1, span.0, span.2, addr)
    }
}

pub open spec fn span_translate_defined(span: Span, addr: usize, to_device: bool) -> bool {
    if to_device {
        translate_defined(span.0, span.1, span.2, addr)
    } else {
        translate_defined(span.1, span.0, span.2, addr)
    }
}

/// The translation of `addr` by the first of `spans[i..]` whose window
/// holds it, if any.
pub open spec fn first_translation(spans: Seq<Span>, addr: usize, to_device: bool, i: int) -> Option<usize>
    decreases spans.len() - i,
{
    if i < 0 || i >= spans.len() {
        None
    } else if span_translate(spans[i], addr, to_device) is Some {
        span_translate(spans[i], addr, to_device)
    } else {
        first_translation(spans, addr, to_device, i + 1)
    }
}

/// Every window of `spans[i..]` up to and including the first that holds
/// `addr` translates it without overflow.
pub open spec fn first_translation_defined(spans: Seq<Span>, addr: usize, to_device: bool, i: int) -> bool
    decreases spans.len() - i,
{
    if i < 0 || i >= spans.len() {
        true
    } else {
        &&& span_translate_defined(spans[i], addr, to_device)
        &&& (span_translate(spans[i], addr, to_device) is None
            ==> first_translation_defined(spans, addr, to_device, i + 1))
    }
}

/// A region of the resource table, whichever kind of entry it is.
pub enum RegionRef<'a> {
    Carveout(&'a Carveout),
    Devmem(&'a Devmem),
}

impl<'a> Region for RegionRef<'a> {
    open spec fn spec_pa(&self) -> usize {
        match *self {
            RegionRef::Carveout(c) => c.pa,
            RegionRef::Devmem(d) => d.pa,
        }
    }

    open spec fn spec_da(&self) -> usize {
        match *self {
            RegionRef::Carveout(c) => c.da,
            RegionRef::Devmem(d) => d.da,
        }
    }

    open spec fn spec_len(&self) -> usize {
        match *self {
            RegionRef::Carveout(c) => c.len,
            RegionRef::Devmem(d) => d.len,
        }
    }

    fn get_pa(&self) -> (r: usize) {
        match self {
            RegionRef::Carveout(c) => c.get_pa(),
            RegionRef::Devmem(d) => d.get_pa(),
        }
    }

    fn get_da(&self) -> (r: usize) {
        match self {
            RegionRef::Carveout(c) => c.get_da(),
            RegionRef::Devmem(d) => d.get_da(),
        }
    }

    fn get_len(&self) -> (r: usize) {
        match self {
            RegionRef::Carveout(c) => c.get_len(),
            RegionRef::Devmem(d) => d.get_len(),
        }
    }
}

pub open spec fn region_span<'a>(r: RegionRef<'a>) -> Span {
    (r.spec_pa(), r.spec_da(), r.spec_len())
}

#[allow(dead_code)]
pub const SZ_64K: usize = 0x00010000;
#[allow(dead_code)]
pub const SZ_128K: usize = 0x00020000;
#[allow(dead_code)]
pub const SZ_256K: usize = 0x00040000;
#[allow(dead_code)]
pub const SZ_512K: usize = 0x00080000;
#[allow(dead_code)]
pub const SZ_1M: usize = 0x00100000;
#[allow(dead_code)]
pub const SZ_2M: usize = 0x00200000;
#[allow(dead_code)]
pub const SZ_4M: usize = 0x00400000;
#[allow(dead_code)]
pub const SZ_8M: usize = 0x00800000;
#[allow(dead_code)]
pub const SZ_16M: usize = 0x01000000;
#[allow(dead_code)]
pub const SZ_32M: usize = 0x02000000;
#[allow(dead_code)]
pub const SZ_64M: usize = 0x04000000;
#[allow(dead_code)]
pub const SZ_128M: usize = 0x08000000;
#[allow(dead_code)]
pub const SZ_256M: usize = 0x10000000;
#[allow(dead_code)]
pub const SZ_512M: usize = 0x20000000;

pub const NUM_ENTRIES: usize = 5;

/// This resource table structure is processed by the kernel. We can map as
/// many resources as we require, but ensure that the offsets array is
/// calculated correctly. Resource tables are specific to each application,
/// but in this case it closely matches the TI example.
#[derive(Debug)]
pub struct ResourceTable {
    pub base: Header,
    pub offsets: [usize; 5],
    pub rpmsg_vdev: Vdev,
    pub rpmsg_vring0: VdevVring,
    pub rpmsg_vring1: VdevVring,
    pub text_cout: Carveout,
    pub data_cout: Carveout,
    pub ipcdata_cout: Carveout,
    pub trace: Trace,
    pub devmem0: Devmem,
    pub devmem1: Devmem,
    pub devmem2: Devmem,
    pub devmem3: Devmem,
    pub devmem4: Devmem,
    pub devmem5: Devmem,
    pub devmem6: Devmem,
    pub devmem7: Devmem,
    pub devmem8: Devmem,
    pub devmem9: Devmem,
    pub devmem10: Devmem,
    pub devmem11: Devmem,
    pub devmem12: Devmem,
    pub devmem13: Devmem,
    pub devmem14: Devmem,
    pub devmem15: Devmem,
}

pub open spec fn carveout_span(c: Carveout) -> Span {
    (c.pa, c.da, c.len)
}

pub open spec fn devmem_span(d: Devmem) -> Span {
    (d.pa, d.da, d.len)
}

impl ResourceTable {
    /// The windows searched by the address translation, in the order in
    /// which they are searched: the text and data carve-outs, then the
    /// sixteen device-memory entries.
    pub open spec fn spans(&self) -> Seq<Span> {
        seq![
            carveout_span(self.text_cout),
            carveout_span(self.data_cout),
            devmem_span(self.devmem0),
            devmem_span(self.devmem1),
            devmem_span(self.devmem2),
            devmem_span(self.devmem3),
            devmem_span(self.devmem4),
            devmem_span(self.devmem5),
            devmem_span(self.devmem6),
            devmem_span(self.devmem7),
            devmem_span(self.devmem8),
            devmem_span(self.devmem9),
            devmem_span(self.devmem10),
            devmem_span(self.devmem11),
            devmem_span(self.devmem12),
            devmem_span(self.devmem13),
            devmem_span(self.devmem14),
            devmem_span(self.devmem15),
        ]
    }

    fn regions(&self) -> (r: Vec<RegionRef<'_>>)
        ensures
            r@.len() == self.spans().len(),
            forall|i: int| 0 <= i < r@.len() ==> #[trigger] region_span(r@[i]) == self.spans()[i],
    {
        let r = vec![
            RegionRef::Carveout(&self.text_cout),
            RegionRef::Carveout(&self.data_cout),
            RegionRef::Devmem(&self.devmem0),
            RegionRef::Devmem(&self.devmem1),
            RegionRef::Devmem(&self.devmem2),
            RegionRef::Devmem(&self.devmem3),
            RegionRef::Devmem(&self.devmem4),
            RegionRef::Devmem(&self.devmem5),
            RegionRef::Devmem(&self.devmem6),
            RegionRef::Devmem(&self.devmem7),
            RegionRef::Devmem(&self.devmem8),
            RegionRef::Devmem(&self.devmem9),
            RegionRef::Devmem(&self.devmem10),
            RegionRef::Devmem(&self.devmem11),
            RegionRef::Devmem(&self.devmem12),
            RegionRef::Devmem(&self.devmem13),
            RegionRef::Devmem(&self.devmem14),
            RegionRef::Devmem(&self.devmem15),
        ];
        r
    }

    /// Searches the regions in order; the first whose window holds `addr`
    /// translates it.
    fn translate_first(&self, addr: usize, to_device: bool) -> (r: Option<usize>)
        requires
            first_translation_defined(self.spans(), addr, to_device, 0),
        ensures
            r == first_translation(self.spans(), addr, to_device, 0),
    {
        let regions = self.regions();
        let mut i: usize = 0;
        while i < regions.len()
            invariant
                i <= regions@.len(),
                regions@.len() == self.spans().len(),
                forall|k: int| 0 <= k < regions@.len() ==> #[trigger] region_span(regions@[k]) == self.spans()[k],
                first_translation(self.spans(), addr, to_device, 0)
                    == first_translation(self.spans(), addr, to_device, i as int),
                first_translation_defined(self.spans(), addr, to_device, i as int),
            decreases regions@.len() - i,
        {
            let region = &regions[i];
            assert(region_span(*region) == self.spans()[i as int]);
            let found = if to_device {
                region.pa_to_da(addr)
            } else {
                region.da_to_pa(addr)
            };
            if let Some(a) = found {
                return Some(a);
            }
            i = i + 1;
        }
        None
    }
}

impl ResourceTable {
    /// Whether the search of the regions for `addr` computes no sum beyond
    /// `usize::MAX`.
    fn translation_defined(&self, addr: usize, to_device: bool) -> (r: bool)
        ensures
            r == first_translation_defined(self.spans(), addr, to_device, 0),
    {
        let regions = self.regions();
        let mut i: usize = 0;
        while i < regions.len()
            invariant
                i <= regions@.len(),
                regions@.len() == self.spans().len(),
                forall|k: int| 0 <= k < regions@.len() ==> #[trigger] region_span(regions@[k]) == self.spans()[k],
                first_translation_defined(self.spans(), addr, to_device, 0)
                    == first_translation_defined(self.spans(), addr, to_device, i as int),
            decreases regions@.len() - i,
        {
            let region = &regions[i];
            assert(region_span(*region) == self.spans()[i as int]);
            let pa = region.get_pa();
            let da = region.get_da();
            let len = region.get_len();
            let (from, to) = if to_device { (pa, da) } else { (da, pa) };
            if !translate_defined_exec(from, to, len, addr) {
                return false;
            }
            if translate_exec(from, to, len, addr).is_some() {
                return true;
            }
            i = i + 1;
        }
        true
    }
}

impl AddressMapper for ResourceTable {
    open spec fn spec_pa_to_da(&self, pa: usize) -> Option<usize> {
        first_translation(self.spans(), pa, true, 0)
    }

    open spec fn spec_da_to_pa(&self, da: usize) -> Option<usize> {
        first_translation(self.spans(), da, false, 0)
    }

    open spec fn pa_to_da_defined(&self, pa: usize) -> bool {
        first_translation_defined(self.spans(), pa, true, 0)
    }

    open spec fn da_to_pa_defined(&self, da: usize) -> bool {
        first_translation_defined(self.spans(), da, false, 0)
    }

    fn pa_to_da_is_defined(&self, pa: usize) -> (r: bool) {
        self.translation_defined(pa, true)
    }

    fn da_to_pa_is_defined(&self, da: usize) -> (r: bool) {
        self.translation_defined(da, false)
    }

    /// Convert a physical address (e.g. an L3/L4 address) to a device address the Cortex-M4 can use.
    fn pa_to_da(&self, given_pa: usize) -> (r: Option<usize>) {
        self.translate_first(given_pa, true)
    }

    /// Convert a device address the Cortex-M4 can use to a physical address (e.g. an L3/L4 address).
    fn da_to_pa(&self, given_da: usize) -> (r: Option<usize>) {
        self.translate_first(given_da, false)
    }
}

/// The window of entry `k` of the table, in table order: the text and data
/// carve-outs (0 and 1), then the device-memory entries devmem0 to devmem15
/// (2 to 17).
pub open spec fn table_window(t: ResourceTable, k: int) -> Span {
    if k == 0 {
        carveout_span(t.text_cout)
    } else if k == 1 {
        carveout_span(t.data_cout)
    } else if k == 2 {
        devmem_span(t.devmem0)
    } else if k == 3 {
        devmem_span(t.devmem1)
    } else if k == 4 {
        devmem_span(t.devmem2)
    } else if k == 5 {
        devmem_span(t.devmem3)
    } else if k == 6 {
        devmem_span(t.devmem4)
    } else if k == 7 {
        devmem_span(t.devmem5)
    } else if k == 8 {
        devmem_span(t.devmem6)
    } else if k == 9 {
        devmem_span(t.devmem7)
    } else if k == 10 {
        devmem_span(t.devmem8)
    } else if k == 11 {
        devmem_span(t.devmem9)
    } else if k == 12 {
        devmem_span(t.devmem10)
    } else if k == 13 {
        devmem_span(t.devmem11)
    } else if k == 14 {
        devmem_span(t.devmem12)
    } else if k == 15 {
        devmem_span(t.devmem13)
    } else if k == 16 {
        devmem_span(t.devmem14)
    } else {
        devmem_span(t.devmem15)
    }
}

/// Whether `addr` lies in the window that starts at `base` and is `len`
/// bytes long.
pub open spec fn in_window(base: usize, len: usize, addr: usize) -> bool {
    base <= addr && addr < base + len
}

proof fn lemma_spans_in_table_order(t: ResourceTable)
    ensures
        t.spans().len() == 18,
        forall|k: int| 0 <= k < 18 ==> #[trigger] t.spans()[k] == table_window(t, k),
{
    assert forall|k: int| 0 <= k < 18 implies #[trigger] t.spans()[k] == table_window(t, k) by {
        if k == 0 {
        } else if k == 1 {
        } else if k == 2 {
        } else if k == 3 {
        } else if k == 4 {
        } else if k == 5 {
        } else if k == 6 {
        } else if k == 7 {
        } else if k == 8 {
        } else if k == 9 {
        } else if k == 10 {
        } else if k == 11 {
        } else if k == 12 {
        } else if k == 13 {
        } else if k == 14 {
        } else if k == 15 {
        } else if k == 16 {
        } else {
        }
    }
}

proof fn lemma_first_translation_at(spans: Seq<Span>, addr: usize, to_device: bool, i: int, k: int)
    requires
        0 <= i <= k < spans.len(),
        span_translate(spans[k], addr, to_device) is Some,
        forall|j: int| i <= j < k ==> span_translate(#[trigger] spans[j], addr, to_device) is None,
    ensures
        first_translation(spans, addr, to_device, i) == span_translate(spans[k], addr, to_device),
    decreases k - i,
{
    if i < k {
        lemma_first_translation_at(spans, addr, to_device, i + 1, k);
    }
}

proof fn lemma_first_translation_none(spans: Seq<Span>, addr: usize, to_device: bool, i: int)
    requires
        0 <= i <= spans.len(),
        forall|j: int| i <= j < spans.len() ==> span_translate(#[trigger] spans[j], addr, to_device) is None,
    ensures
        first_translation(spans, addr, to_device, i) is None,
    decreases spans.len() - i,
{
    if i < spans.len() {
        lemma_first_translation_none(spans, addr, to_device, i + 1);
    }
}

/// Every entry of the table is searched, in table order: a physical
/// address that lies in the window of entry `k` and in that of no earlier
/// entry is translated by entry `k`, to its device address plus the
/// address's offset in the window.
pub proof fn law_pa_to_da_by_first_window(t: ResourceTable, k: int, pa: usize)
    requires
        0 <= k < 18,
        in_window(table_window(t, k).0, table_window(t, k).2, pa),
        forall|j: int| 0 <= j < k ==> !in_window(#[trigger] table_window(t, j).0, table_window(t, j).2, pa),
    ensures
        t.spec_pa_to_da(pa) == Some((table_window(t, k).1 + (pa - table_window(t, k).0)) as usize),
{
    lemma_spans_in_table_order(t);
    assert forall|j: int| 0 <= j < k implies span_translate(#[trigger] t.spans()[j], pa, true) is None by {
        assert(t.spans()[j] == table_window(t, j));
    }
    assert(t.spans()[k] == table_window(t, k));
    lemma_first_translation_at(t.spans(), pa, true, 0, k);
}

/// The same for device addresses: a device address that lies in the device
/// window of entry `k` and in that of no earlier entry is translated by
/// entry `k`, to its physical address plus the offset in the window.
pub proof fn law_da_to_pa_by_first_window(t: ResourceTable, k: int, da: usize)
    requires
        0 <= k < 18,
        in_window(table_window(t, k).1, table_window(t, k).2, da),
        forall|j: int| 0 <= j < k ==> !in_window(#[trigger] table_window(t, j).1, table_window(t, j).2, da),
    ensures
        t.spec_da_to_pa(da) == Some((table_window(t, k).0 + (da - table_window(t, k).1)) as usize),
{
    lemma_spans_in_table_order(t);
    assert forall|j: int| 0 <= j < k implies span_translate(#[trigger] t.spans()[j], da, false) is None by {
        assert(t.spans()[j] == table_window(t, j));
    }
    assert(t.spans()[k] == table_window(t, k));
    lemma_first_translation_at(t.spans(), da, false, 0, k);
}

/// An address that lies in no window of the table has no translation,
/// either way.
pub proof fn law_no_window_no_translation(t: ResourceTable, addr: usize)
    ensures
        (forall|k: int| 0 <= k < 18 ==> !in_window(#[trigger] table_window(t, k).0, table_window(t, k).2, addr))
            ==> t.spec_pa_to_da(addr) is None,
        (forall|k: int| 0 <= k < 18 ==> !in_window(#[trigger] table_window(t, k).1, table_window(t, k).2, addr))
            ==> t.spec_da_to_pa(addr) is None,
{
    lemma_spans_in_table_order(t);
    if forall|k: int| 0 <= k < 18 ==> !in_window(#[trigger] table_window(t, k).0, table_window(t, k).2, addr) {
        assert forall|j: int| 0 <= j < t.spans().len() implies span_translate(#[trigger] t.spans()[j], addr, true) is None by {
            assert(t.spans()[j] == table_window(t, j));
        }
        lemma_first_translation_none(t.spans(), addr, true, 0);
    }
    if forall|k: int| 0 <= k < 18 ==> !in_window(#[trigger] table_window(t, k).1, table_window(t, k).2, addr) {
        assert forall|j: int| 0 <= j < t.spans().len() implies span_translate(#[trigger] t.spans()[j], addr, false) is None by {
            assert(t.spans()[j] == table_window(t, j));
        }
        lemma_first_translation_none(t.spans(), addr, false, 0);
    }
}

} // verus!
