use asmos::exceptions::{
    BreakpointException, DoubleFaultException, ExceptionHandler, HandlerKind,
};
use asmos::gdt::{
    activation_sequence, build_descriptor_table, ActivationStep, DataSegment, GDTEntry,
    TaskState, STACK_SIZE,
};
use asmos::idt::{build_vector_table, VectorEntry, VectorTable, VECTOR_COUNT};
use x86_64::structures::gdt::SegmentSelector;
use x86_64::structures::tss::TaskStateSegment;

fn leaked_tss() -> &'static TaskStateSegment {
    Box::leak(Box::new(TaskStateSegment::new()))
}

#[test]
fn descriptor_table_selectors() {
    let (_, selectors) = build_descriptor_table(leaked_tss());
    assert_eq!(selectors[GDTEntry::KernelCodeSegment.index()].0, 0x08);
    assert_eq!(selectors[GDTEntry::KernelDataSegment.index()].0, 0x10);
    assert_eq!(selectors[GDTEntry::TaskStateSegment.index()].0, 0x18);
}

#[test]
fn descriptor_table_words() {
    let tss = leaked_tss();
    let (gdt, _) = build_descriptor_table(tss);
    let words = gdt.as_raw_slice();
    assert_eq!(words.len(), 5);
    assert_eq!(words[0], 0);
    assert_eq!(words[1], 0x00af9b000000ffff);
    assert_eq!(words[2], 0x00cf93000000ffff);
    assert_eq!((words[3] >> 40) & 0xff, 0x89);
    let addr = x86_64::VirtAddr::from_ptr(tss).as_u64();
    assert_eq!(words[4], addr >> 32);
}

#[test]
fn descriptor_table_built_twice_gives_same_selectors() {
    let (_, first) = build_descriptor_table(leaked_tss());
    let (_, second) = build_descriptor_table(leaked_tss());
    assert_eq!(first, second);
}

#[test]
fn activation_order() {
    let selectors = [SegmentSelector(0x08), SegmentSelector(0x10), SegmentSelector(0x18)];
    let steps = activation_sequence(&selectors);
    let data = SegmentSelector(0x10);
    assert_eq!(
        steps,
        [
            ActivationStep::LoadTable,
            ActivationStep::SwitchCode(SegmentSelector(0x08)),
            ActivationStep::LoadData(DataSegment::Ds, data),
            ActivationStep::LoadData(DataSegment::Es, data),
            ActivationStep::LoadData(DataSegment::Fs, data),
            ActivationStep::LoadData(DataSegment::Gs, data),
            ActivationStep::LoadStack(SegmentSelector(0)),
            ActivationStep::LoadTaskRegister(SegmentSelector(0x18)),
        ]
    );
}

#[test]
fn task_state_provisions_double_fault_stack() {
    let tss = TaskState::with_double_fault_stack(0x1000);
    assert_eq!(STACK_SIZE, 8192);
    assert_eq!(tss.interrupt_stack(DoubleFaultException::IST_INDEX), 0x3000);
    for i in 1..7 {
        assert_eq!(tss.interrupt_stack(i), 0);
    }
}

#[test]
fn vector_table_registers_two_handlers() {
    let table = build_vector_table();
    assert_eq!(
        *table.entry(0x03),
        VectorEntry::Registered(ExceptionHandler::Breakpoint, None)
    );
    assert_eq!(
        *table.entry(0x08),
        VectorEntry::Registered(ExceptionHandler::DoubleFault, Some(0))
    );
    let mut registered = 0;
    for v in 0..VECTOR_COUNT {
        if *table.entry(v as u8) != VectorEntry::Absent {
            registered += 1;
        }
    }
    assert_eq!(registered, 2);
}

#[test]
fn double_fault_handler_switches_into_reserved_stack() {
    let bottom: u64 = 0x7000_0000;
    let tss = TaskState::with_double_fault_stack(bottom);
    let table = build_vector_table();
    match *table.entry(DoubleFaultException::CODE) {
        VectorEntry::Registered(ExceptionHandler::DoubleFault, Some(slot)) => {
            let top = tss.interrupt_stack(slot as usize);
            assert!(top - 1 >= bottom && top - 1 < bottom + STACK_SIZE as u64);
            let interrupted = 0x1000_0000u64..0x1000_4000u64;
            assert!(!interrupted.contains(&(top - 1)));
        }
        other => panic!("unexpected entry {:?}", other),
    }
}

#[test]
fn empty_table_and_register() {
    let mut table = VectorTable::new();
    assert_eq!(*table.entry(0xff), VectorEntry::Absent);
    table.register(0xff, VectorEntry::Registered(ExceptionHandler::Breakpoint, Some(2)));
    assert_eq!(
        *table.entry(0xff),
        VectorEntry::Registered(ExceptionHandler::Breakpoint, Some(2))
    );
    assert_eq!(*table.entry(0xfe), VectorEntry::Absent);
}

#[test]
fn exception_tags() {
    assert!(BreakpointException::tag().contains("#BP"));
    assert!(BreakpointException::tag().contains("0x03"));
    assert!(DoubleFaultException::tag().contains("#DF"));
    assert!(DoubleFaultException::tag().contains("0x08"));
    assert_eq!(BreakpointException::CODE, 0x03);
    assert_eq!(DoubleFaultException::CODE, 0x08);
}

#[test]
fn handler_classes() {
    assert_eq!(ExceptionHandler::Breakpoint.kind(), HandlerKind::Resumable);
    assert_eq!(ExceptionHandler::DoubleFault.kind(), HandlerKind::Terminal);
    assert_eq!(ExceptionHandler::Breakpoint.vector(), 3);
    assert_eq!(ExceptionHandler::DoubleFault.vector(), 8);
}

#[test]
fn exception_mnemonics() {
    assert_eq!(BreakpointException::MNEMONIC, "#BP");
    assert_eq!(DoubleFaultException::MNEMONIC, "#DF");
    assert!(BreakpointException::tag().starts_with("(#BP"));
    assert!(DoubleFaultException::tag().starts_with("(#DF"));
}
