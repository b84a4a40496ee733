//! The interrupt vector table: 256 slots, each empty or holding a handler and,
//! optionally, the interrupt-stack slot to switch to on entry.
use crate::exceptions::{BreakpointException, DoubleFaultException, ExceptionHandler};
use crate::gdt::{TaskState, STACK_SIZE};
use core::ops::Range;
use vstd::prelude::*;

verus! {

/// Number of vectors the processor defines.
pub const VECTOR_COUNT: usize = 256;

/// One slot of the table.
#[derive(Debug, Clone, Copy, PartialEq, Eq)]
pub enum VectorEntry {
    /// Nothing registered: the vector firing is a fault the processor escalates.
    Absent,
    /// A handler, and the interrupt-stack slot the processor switches to when
    /// it enters it, if any.
    Registered(ExceptionHandler, Option<u16>),
}

pub struct VectorTable {
    entries: [VectorEntry; VECTOR_COUNT],
}

impl VectorTable {
    pub closed spec fn spec_entries(&self) -> Seq<VectorEntry> {
        self.entries@
    }

    pub open spec fn wf(&self) -> bool {
        self.spec_entries().len() == VECTOR_COUNT
    }

    /// A table with every vector absent.
    pub fn new() -> (r: VectorTable)
        ensures
            r.wf(),
            forall|v: int| 0 <= v < VECTOR_COUNT ==> #[trigger] r.spec_entries()[v] is Absent,
    {
        let entries: [VectorEntry; VECTOR_COUNT] = [VectorEntry::Absent; VECTOR_COUNT];
        proof {
            broadcast use vstd::array::axiom_spec_array_fill_for_copy_type;
        }
        VectorTable { entries }
    }

    /// Puts `entry` in slot `vector`, leaving every other slot as it was.
    pub fn register(&mut self, vector: u8, entry: VectorEntry)
        requires
            old(self).wf(),
        ensures
            final(self).wf(),
            final(self).spec_entries() == old(self).spec_entries().update(vector as int, entry),
    {
        self.entries[vector as usize] = entry;
    }

    /// The slot of `vector`.
    pub fn entry(&self, vector: u8) -> (r: &VectorEntry)
        requires
            self.wf(),
        ensures
            *r == self.spec_entries()[vector as int],
    {
        &self.entries[vector as usize]
    }
}

/// The kernel's table: the breakpoint handler at its vector, the double-fault
/// handler at its vector with a switch to its own stack, nothing elsewhere.
pub open spec fn kernel_vectors() -> Seq<VectorEntry> {
    Seq::new(
        VECTOR_COUNT as nat,
        |v: int|
            if v == BreakpointException::CODE {
                VectorEntry::Registered(ExceptionHandler::Breakpoint, None)
            } else if v == DoubleFaultException::CODE {
                VectorEntry::Registered(
                    ExceptionHandler::DoubleFault,
                    Some(DoubleFaultException::IST_INDEX as u16),
                )
            } else {
                VectorEntry::Absent
            },
    )
}

/// Builds the kernel's table.
pub fn build_vector_table() -> (r: VectorTable)
    ensures
        r.wf(),
        r.spec_entries() == kernel_vectors(),
{
    let mut table = VectorTable::new();
    table.register(
        BreakpointException::CODE,
        VectorEntry::Registered(ExceptionHandler::Breakpoint, None),
    );
    table.register(
        DoubleFaultException::CODE,
        VectorEntry::Registered(
            ExceptionHandler::DoubleFault,
            Some(DoubleFaultException::IST_INDEX as u16),
        ),
    );
    assert(table.spec_entries() =~= kernel_vectors());
    table
}


/// The double-fault handler runs on its reserved stack and on no other: the
/// table sends that vector to an interrupt-stack slot, the slot holds the top
/// of the `STACK_SIZE` bytes at `stack_bottom`, and so every byte below that
/// top that the handler can use lies in the reserved range and outside any
/// stack of the interrupted context that is disjoint from it.
pub proof fn lemma_double_fault_stack_isolated(
    table: VectorTable,
    tss: TaskState,
    stack_bottom: u64,
    interrupted: Range<u64>,
)
    requires
        table.spec_entries() == kernel_vectors(),
        tss.spec_ist().len() == 7,
        tss.spec_ist()[DoubleFaultException::IST_INDEX as int] == stack_bottom + STACK_SIZE,
        interrupted.end <= stack_bottom || stack_bottom + STACK_SIZE <= interrupted.start,
    ensures
        table.spec_entries()[DoubleFaultException::CODE as int] matches VectorEntry::Registered(
            ExceptionHandler::DoubleFault,
            Some(slot),
        ) && slot < 7 && forall|a: int|
            #![trigger in_stack(tss.spec_ist()[slot as int], a)]
            in_stack(tss.spec_ist()[slot as int], a) ==> stack_bottom <= a < stack_bottom
                + STACK_SIZE && !(interrupted.start <= a < interrupted.end),
{
    assert(table.spec_entries()[DoubleFaultException::CODE as int] == VectorEntry::Registered(
        ExceptionHandler::DoubleFault,
        Some(DoubleFaultException::IST_INDEX as u16),
    ));
}

/// Address `a` lies in the `STACK_SIZE` bytes below stack top `top`.
pub open spec fn in_stack(top: u64, a: int) -> bool {
    top - STACK_SIZE <= a < top
}

} // verus!
