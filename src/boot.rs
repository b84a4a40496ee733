//! Boot-information resolution: the memory regions that the bootloader and
//! the link step describe.
use core::ops::Range;
use vstd::prelude::*;

verus! {

/// What the kernel reads from the bootloader's handoff structure: where it
/// starts and how many bytes it spans.
#[derive(Debug, Clone, Copy, PartialEq, Eq)]
pub struct BootInfo {
    start_address: usize,
    total_size: usize,
}

impl BootInfo {
    /// The structure fits in the address space.
    pub open spec fn wf(&self) -> bool {
        self.spec_start() + self.spec_size() <= usize::MAX
    }

    pub closed spec fn spec_start(&self) -> usize {
        self.start_address
    }

    pub closed spec fn spec_size(&self) -> usize {
        self.total_size
    }

    /// A description of a handoff structure at `start_address` that spans
    /// `total_size` bytes; `None` when it would run past the address space.
    pub fn new(start_address: usize, total_size: usize) -> (r: Option<BootInfo>)
        ensures
            r is Some <==> start_address + total_size <= usize::MAX,
            r matches Some(info) ==> info.wf() && info.spec_start() == start_address
                && info.spec_size() == total_size,
    {
        if total_size <= usize::MAX - start_address {
            Some(BootInfo { start_address, total_size })
        } else {
            None
        }
    }

    pub fn start_address(&self) -> (r: usize)
        ensures
            r == self.spec_start(),
    {
        self.start_address
    }

    pub fn total_size(&self) -> (r: usize)
        ensures
            r == self.spec_size(),
    {
        self.total_size
    }

    /// The first address past the structure.
    pub fn end_address(&self) -> (r: usize)
        requires
            self.wf(),
        ensures
            r == self.spec_start() + self.spec_size(),
    {
        self.start_address + self.total_size
    }
}

/// Whether address `x` lies in the half-open region `r`.
pub open spec fn in_region(r: Range<usize>, x: int) -> bool {
    r.start <= x < r.end
}

/// No address lies in both regions (an empty region overlaps nothing).
pub open spec fn disjoint(a: Range<usize>, b: Range<usize>) -> bool {
    a.end <= a.start || b.end <= b.start || a.end <= b.start || b.end <= a.start
}

/// Addresses that the link step fixes: the markers around the reserved
/// firmware region, the boot trampoline and the kernel image, and the
/// offset between link-time and load-time addresses.
#[derive(Debug, Clone, Copy, PartialEq, Eq)]
pub struct LinkerSymbols {
    pub reserved_begin: usize,
    pub reserved_end: usize,
    pub prelude_begin: usize,
    pub prelude_end: usize,
    pub kernel_offset: usize,
    pub kernel_begin: usize,
    pub kernel_end: usize,
}

impl LinkerSymbols {
    /// Every region is ordered and the kernel image stays clear of the
    /// reserved region.
    pub open spec fn wf(&self) -> bool {
        &&& self.reserved_begin <= self.reserved_end
        &&& self.prelude_begin <= self.prelude_end
        &&& self.kernel_begin <= self.kernel_end
        &&& disjoint(self.kernel_begin..self.kernel_end, self.reserved_begin..self.reserved_end)
    }

    /// Tells whether the link layout is usable.
    pub fn is_consistent(&self) -> (r: bool)
        ensures
            r == self.wf(),
    {
        self.reserved_begin <= self.reserved_end && self.prelude_begin <= self.prelude_end
            && self.kernel_begin <= self.kernel_end && (self.kernel_end <= self.kernel_begin
            || self.reserved_end <= self.reserved_begin || self.kernel_end <= self.reserved_begin
            || self.reserved_end <= self.kernel_begin)
    }
}

/// The resolver's process-wide state: the link layout and, once the handoff
/// structure has been parsed, what it describes.
pub struct BootState {
    symbols: LinkerSymbols,
    info: Option<BootInfo>,
}

impl BootState {
    pub closed spec fn spec_symbols(&self) -> LinkerSymbols {
        self.symbols
    }

    pub closed spec fn spec_info(&self) -> Option<BootInfo> {
        self.info
    }

    pub open spec fn wf(&self) -> bool {
        &&& self.spec_symbols().wf()
        &&& self.spec_info() matches Some(info) ==> info.wf()
    }

    /// The handoff structure was parsed: the accessors may be called.
    pub open spec fn loaded(&self) -> bool {
        self.spec_info() is Some
    }

    /// State before the handoff structure has been looked at.
    pub fn new(symbols: LinkerSymbols) -> (r: BootState)
        requires
            symbols.wf(),
        ensures
            r.wf(),
            !r.loaded(),
            r.spec_symbols() == symbols,
    {
        BootState { symbols, info: None }
    }

    pub fn is_loaded(&self) -> (r: bool)
        ensures
            r == self.loaded(),
    {
        self.info.is_some()
    }
}

pub open spec fn spec_multiboot_region(state: &BootState) -> Range<usize>
    recommends
        state.loaded(),
{
    let info = state.spec_info().unwrap();
    info.spec_start()..(info.spec_start() + info.spec_size()) as usize
}

pub open spec fn spec_reserved_region(state: &BootState) -> Range<usize> {
    state.spec_symbols().reserved_begin..state.spec_symbols().reserved_end
}

pub open spec fn spec_skeletal_region(state: &BootState) -> Range<usize> {
    state.spec_symbols().prelude_begin..state.spec_symbols().prelude_end
}

pub open spec fn spec_kernel_region(state: &BootState) -> Range<usize> {
    state.spec_symbols().kernel_begin..state.spec_symbols().kernel_end
}

/// Records the result of parsing the handoff structure. A structure that could
/// not be parsed leaves the state unloaded, so that every accessor stays out of
/// reach instead of reporting made-up regions.
pub fn init(state: &mut BootState, parsed: Option<BootInfo>)
    requires
        old(state).wf(),
        parsed matches Some(info) ==> info.wf(),
    ensures
        final(state).wf(),
        final(state).spec_info() == parsed,
        final(state).spec_symbols() == old(state).spec_symbols(),
        final(state).loaded() <==> parsed is Some,
{
    state.info = parsed;
}

/// The parsed handoff structure.
pub fn multiboot_info(state: &BootState) -> (r: &BootInfo)
    requires
        state.wf(),
        state.loaded(),
    ensures
        state.spec_info() == Some(*r),
        r.wf(),
{
    match &state.info {
        Some(info) => info,
        None => vstd::pervasive::unreached(),
    }
}


/// The bytes that the handoff structure itself occupies.
pub fn multiboot_region(state: &BootState) -> (r: Range<usize>)
    requires
        state.wf(),
        state.loaded(),
    ensures
        r == spec_multiboot_region(state),
        r.start <= r.end,
{
    let info = multiboot_info(state);
    info.start_address()..info.end_address()
}

/// The firmware region that the kernel must leave alone.
pub fn reserved_region(state: &BootState) -> (r: Range<usize>)
    requires
        state.wf(),
        state.loaded(),
    ensures
        r == spec_reserved_region(state),
        r.start <= r.end,
{
    state.symbols.reserved_begin..state.symbols.reserved_end
}

/// The region of the boot trampoline's own code.
pub fn skeletal_region(state: &BootState) -> (r: Range<usize>)
    requires
        state.wf(),
        state.loaded(),
    ensures
        r == spec_skeletal_region(state),
        r.start <= r.end,
{
    state.symbols.prelude_begin..state.symbols.prelude_end
}

/// The displacement between the kernel's link-time and load-time addresses.
pub fn kernel_offset(state: &BootState) -> (r: usize)
    requires
        state.wf(),
        state.loaded(),
    ensures
        r == state.spec_symbols().kernel_offset,
{
    state.symbols.kernel_offset
}

/// The region of the loaded kernel image.
pub fn kernel_region(state: &BootState) -> (r: Range<usize>)
    requires
        state.wf(),
        state.loaded(),
    ensures
        r == spec_kernel_region(state),
        r.start <= r.end,
        disjoint(r, spec_reserved_region(state)),
{
    state.symbols.kernel_begin..state.symbols.kernel_end
}

/// Once a parsed structure has been recorded, the region reported for it
/// spans exactly the size that the structure gives for itself.
pub proof fn lemma_boot_info_region_span(state: BootState, info: BootInfo)
    requires
        state.wf(),
        state.spec_info() == Some(info),
    ensures
        spec_multiboot_region(&state).end - spec_multiboot_region(&state).start
            == info.spec_size(),
        spec_multiboot_region(&state).start == info.spec_start(),
{
}

/// Every region that the resolver reports is ordered, and no address of the
/// kernel image lies in the reserved region.
pub proof fn lemma_regions_ordered(state: BootState)
    requires
        state.wf(),
        state.loaded(),
    ensures
        spec_multiboot_region(&state).start <= spec_multiboot_region(&state).end,
        spec_reserved_region(&state).start <= spec_reserved_region(&state).end,
        spec_skeletal_region(&state).start <= spec_skeletal_region(&state).end,
        spec_kernel_region(&state).start <= spec_kernel_region(&state).end,
        forall|x: int|
            !(in_region(spec_kernel_region(&state), x) && #[trigger] in_region(
                spec_reserved_region(&state),
                x,
            )),
{
}

} // verus!
