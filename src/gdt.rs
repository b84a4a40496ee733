//! The segment descriptor table, the task state that provisions the
//! double-fault stack, and the order in which the processor takes them up.
use crate::exceptions::DoubleFaultException;
use vstd::prelude::*;
use x86_64::structures::gdt::{Descriptor, GlobalDescriptorTable, SegmentSelector};
use x86_64::structures::tss::TaskStateSegment;

verus! {

/// x86_64's descriptor table, opaque here: what it holds is `gdt_entries`.
#[verifier::external_type_specification]
#[verifier::external_body]
pub struct ExGlobalDescriptorTable(GlobalDescriptorTable);

/// x86_64's task state segment, carried through opaquely.
#[verifier::external_type_specification]
#[verifier::external_body]
pub struct ExTaskStateSegment(TaskStateSegment);

/// x86_64's segment descriptor, a public enum of one or two words.
#[verifier::external_type_specification]
pub struct ExDescriptor(Descriptor);

/// x86_64's segment selector, a public 16-bit value.
#[verifier::external_type_specification]
pub struct ExSegmentSelector(SegmentSelector);

/// The descriptor words that a table holds, the leading null entry included.
pub uninterp spec fn gdt_entries(g: GlobalDescriptorTable) -> Seq<u64>;

/// The table slots that a descriptor fills: one for a user segment, two for a
/// system segment.
pub open spec fn descriptor_words(d: Descriptor) -> Seq<u64> {
    match d {
        Descriptor::UserSegment(v) => seq![v],
        Descriptor::SystemSegment(lo, hi) => seq![lo, hi],
    }
}

/// The first word of a descriptor.
pub open spec fn low_word(d: Descriptor) -> u64 {
    match d {
        Descriptor::UserSegment(v) => v,
        Descriptor::SystemSegment(lo, _) => lo,
    }
}

/// The privilege level written in a descriptor's low word (bits 45 and 46).
pub open spec fn descriptor_dpl(d: Descriptor) -> u64 {
    (low_word(d) >> 45u64) & 3u64
}

/// Relies on x86_64's `GlobalDescriptorTable::new`: the table starts with its
/// null entry alone.
pub assume_specification[ GlobalDescriptorTable::new ]() -> (r: GlobalDescriptorTable)
    ensures
        gdt_entries(r) == seq![0u64],
;

/// Relies on x86_64's `GlobalDescriptorTable::add_entry`: the descriptor's
/// words go after the entries already there, and the selector is the index of
/// the first of them shifted by three, with the descriptor's privilege level
/// in the low bits. It panics when the eight slots cannot hold the words.
pub assume_specification[ GlobalDescriptorTable::add_entry ](
    gdt: &mut GlobalDescriptorTable,
    entry: Descriptor,
) -> (r: SegmentSelector)
    requires
        gdt_entries(*old(gdt)).len() + descriptor_words(entry).len() <= 8,
    ensures
        gdt_entries(*final(gdt)) == gdt_entries(*old(gdt)) + descriptor_words(entry),
        r.0 == gdt_entries(*old(gdt)).len() * 8 + descriptor_dpl(entry),
;

/// Relies on x86_64's `Descriptor::kernel_code_segment`: the 64-bit ring-0
/// code segment flags.
pub assume_specification[ Descriptor::kernel_code_segment ]() -> (r: Descriptor)
    ensures
        r == Descriptor::UserSegment(0x00af9b000000ffffu64),
;

/// Relies on x86_64's `Descriptor::kernel_data_segment`: the ring-0 data
/// segment flags.
pub assume_specification[ Descriptor::kernel_data_segment ]() -> (r: Descriptor)
    ensures
        r == Descriptor::UserSegment(0x00cf93000000ffffu64),
;

/// Relies on x86_64's `Descriptor::tss_segment`: a system descriptor whose
/// access byte (bits 40 to 47) marks a present, ring-0, available 64-bit task
/// state; the rest of its words hold the task state's address and limit.
pub assume_specification[ Descriptor::tss_segment ](tss: &'static TaskStateSegment) -> (r:
    Descriptor)
    ensures
        r is SystemSegment,
        (low_word(r) >> 40u64) & 0xffu64 == 0x89u64,
;

pub const KERNEL_CODE_DESCRIPTOR: u64 = 0x00af9b000000ffff;

pub const KERNEL_DATA_DESCRIPTOR: u64 = 0x00cf93000000ffff;

/// The selectors of the kernel's table, in the order of `GDTEntry`: code in
/// slot one, data in slot two, the task state in slots three and four, all
/// at ring 0.
pub open spec fn kernel_selectors() -> Seq<u16> {
    seq![0x08u16, 0x10u16, 0x18u16]
}

pub open spec fn selector_values(s: [SegmentSelector; 3]) -> Seq<u16> {
    seq![s[0].0, s[1].0, s[2].0]
}

/// The entries of the kernel's table, looked up by `GDTEntry::index`.
#[derive(Debug, Clone, Copy, PartialEq, Eq)]
pub enum GDTEntry {
    KernelCodeSegment,
    KernelDataSegment,
    TaskStateSegment,
}

impl GDTEntry {
    pub open spec fn spec_index(&self) -> usize {
        match self {
            GDTEntry::KernelCodeSegment => 0,
            GDTEntry::KernelDataSegment => 1,
            GDTEntry::TaskStateSegment => 2,
        }
    }

    /// Position of the entry's selector in the selector set.
    pub fn index(&self) -> (r: usize)
        ensures
            r == self.spec_index(),
            r < 3,
    {
        match self {
            GDTEntry::KernelCodeSegment => 0,
            GDTEntry::KernelDataSegment => 1,
            GDTEntry::TaskStateSegment => 2,
        }
    }
}

/// Builds the kernel's descriptor table: the kernel code segment, the kernel
/// data segment and a descriptor of `tss`, in this order, with their selectors.
pub fn build_descriptor_table(tss: &'static TaskStateSegment) -> (r: (
    GlobalDescriptorTable,
    [SegmentSelector; 3],
))
    ensures
        selector_values(r.1) == kernel_selectors(),
        gdt_entries(r.0).len() == 5,
        gdt_entries(r.0)[0] == 0,
        gdt_entries(r.0)[1] == KERNEL_CODE_DESCRIPTOR,
        gdt_entries(r.0)[2] == KERNEL_DATA_DESCRIPTOR,
        (gdt_entries(r.0)[3] >> 40u64) & 0xffu64 == 0x89u64,
{
    let mut gdt = GlobalDescriptorTable::new();
    let code = gdt.add_entry(Descriptor::kernel_code_segment());
    let data = gdt.add_entry(Descriptor::kernel_data_segment());
    let task = gdt.add_entry(Descriptor::tss_segment(tss));
    proof {
        assert((0x00af9b000000ffffu64 >> 45u64) & 3u64 == 0u64) by (bit_vector);
        assert((0x00cf93000000ffffu64 >> 45u64) & 3u64 == 0u64) by (bit_vector);
        let lo = gdt_entries(gdt)[3];
        assert((lo >> 40u64) & 0xffu64 == 0x89u64 ==> (lo >> 45u64) & 3u64 == 0u64)
            by (bit_vector);
    }
    (gdt, [code, data, task])
}


/// Building the table twice gives the same selectors, bit for bit.
pub proof fn lemma_selectors_stable(first: [SegmentSelector; 3], second: [SegmentSelector; 3])
    requires
        selector_values(first) == kernel_selectors(),
        selector_values(second) == kernel_selectors(),
    ensures
        first == second,
{
    assert(first[0] == second[0] && first[1] == second[1] && first[2] == second[2]);
    assert(first@ =~= second@);
}

/// Size in bytes of the stack reserved for the double-fault handler.
pub const STACK_SIZE: usize = 8192;

/// The interrupt stack table of the task state: for each slot, the address of
/// the top of a stack that the processor switches to (zero where none is
/// provisioned).
pub struct TaskState {
    interrupt_stack_table: [u64; 7],
}

impl TaskState {
    pub closed spec fn spec_ist(&self) -> Seq<u64> {
        self.interrupt_stack_table@
    }

    /// A task state whose only provisioned stack is the double-fault one, the
    /// `STACK_SIZE` bytes that start at `stack_bottom`; its slot holds their top.
    pub fn with_double_fault_stack(stack_bottom: u64) -> (r: TaskState)
        requires
            stack_bottom + STACK_SIZE <= u64::MAX,
        ensures
            r.spec_ist().len() == 7,
            r.spec_ist()[DoubleFaultException::IST_INDEX as int] == stack_bottom + STACK_SIZE,
            forall|i: int|
                0 <= i < 7 && i != DoubleFaultException::IST_INDEX ==> #[trigger] r.spec_ist()[i]
                    == 0,
    {
        let mut ist: [u64; 7] = [0, 0, 0, 0, 0, 0, 0];
        ist[DoubleFaultException::IST_INDEX] = stack_bottom + STACK_SIZE as u64;
        TaskState { interrupt_stack_table: ist }
    }

    /// The stack top held in slot `index`.
    pub fn interrupt_stack(&self, index: usize) -> (r: u64)
        requires
            index < 7,
        ensures
            r == self.spec_ist()[index as int],
    {
        self.interrupt_stack_table[index]
    }
}

/// The data-class segment registers.
#[derive(Debug, Clone, Copy, PartialEq, Eq)]
pub enum DataSegment {
    Ds,
    Es,
    Fs,
    Gs,
}

/// One step of taking up the descriptor table.
#[derive(Debug, Clone, Copy, PartialEq, Eq)]
pub enum ActivationStep {
    /// Load the table into the descriptor-table register.
    LoadTable,
    /// Switch the code segment (a far control transfer).
    SwitchCode(SegmentSelector),
    /// Load a data-class segment register.
    LoadData(DataSegment, SegmentSelector),
    /// Set the stack segment register.
    LoadStack(SegmentSelector),
    /// Load the task register.
    LoadTaskRegister(SegmentSelector),
}

/// The order in which the processor takes up the table: the table itself,
/// then the code segment, the four data-class registers, the null stack
/// segment, and last the task register.
pub open spec fn activation_order(s: [SegmentSelector; 3]) -> Seq<ActivationStep> {
    seq![
        ActivationStep::LoadTable,
        ActivationStep::SwitchCode(s[0]),
        ActivationStep::LoadData(DataSegment::Ds, s[1]),
        ActivationStep::LoadData(DataSegment::Es, s[1]),
        ActivationStep::LoadData(DataSegment::Fs, s[1]),
        ActivationStep::LoadData(DataSegment::Gs, s[1]),
        ActivationStep::LoadStack(SegmentSelector(0)),
        ActivationStep::LoadTaskRegister(s[2]),
    ]
}

/// The steps that install the table whose selectors are `selectors`, in the
/// order the processor needs them.
pub fn activation_sequence(selectors: &[SegmentSelector; 3]) -> (r: [ActivationStep; 8])
    ensures
        r@ == activation_order(*selectors),
{
    let code = selectors[GDTEntry::KernelCodeSegment.index()];
    let data = selectors[GDTEntry::KernelDataSegment.index()];
    let task = selectors[GDTEntry::TaskStateSegment.index()];
    let r = [
        ActivationStep::LoadTable,
        ActivationStep::SwitchCode(code),
        ActivationStep::LoadData(DataSegment::Ds, data),
        ActivationStep::LoadData(DataSegment::Es, data),
        ActivationStep::LoadData(DataSegment::Fs, data),
        ActivationStep::LoadData(DataSegment::Gs, data),
        ActivationStep::LoadStack(SegmentSelector(0)),
        ActivationStep::LoadTaskRegister(task),
    ];
    assert(r@ =~= activation_order(*selectors));
    r
}

} // verus!
