//! Interrupt vectors: which vector gets which handler, what each handler
//! does, and how interrupt delivery is suspended around shared state.

use vstd::prelude::*;
use crate::cpu::BootAction;
use crate::gdt::DOUBLE_FAULT_IST_INDEX;

verus! {

/// First vector of the primary interrupt controller.
pub const PIC_1_OFFSET: u8 = 32;

/// First vector of the secondary interrupt controller.
pub const PIC_2_OFFSET: u8 = PIC_1_OFFSET + 8;

/// Vector of the breakpoint exception.
pub const BREAKPOINT_VECTOR: u8 = 3;

/// Vector of the double fault exception.
pub const DOUBLE_FAULT_VECTOR: u8 = 8;

/// Vector of the general protection fault.
pub const GENERAL_PROTECTION_VECTOR: u8 = 13;

/// Vector of the page fault.
pub const PAGE_FAULT_VECTOR: u8 = 14;

/// I/O port from which the keyboard's scan codes are read.
pub const KEYBOARD_DATA_PORT: u16 = 0x60;

/// Mask of the primary controller at boot: every line off but the timer's.
pub const BOOT_MASK_1: u8 = 0xFE;

/// Mask of the secondary controller at boot: every line off.
pub const BOOT_MASK_2: u8 = 0xFF;

/// The interrupt flag in the processor's flags register.
pub const INTERRUPT_FLAG: u64 = 0x200;

/// The hardware interrupts that have a handler.
#[derive(Debug, Clone, Copy, PartialEq, Eq, Structural)]
pub enum InterruptIndex {
    Timer,
    Keyboard,
}

impl InterruptIndex {
    /// The vector on which the interrupt arrives.
    pub open spec fn spec_vector(self) -> u8 {
        match self {
            InterruptIndex::Timer => 32,
            InterruptIndex::Keyboard => 33,
        }
    }

    /// The vector as a byte.
    pub fn as_u8(self) -> (v: u8)
        ensures
            v == self.spec_vector(),
    {
        match self {
            InterruptIndex::Timer => PIC_1_OFFSET,
            InterruptIndex::Keyboard => PIC_1_OFFSET + 1,
        }
    }

    /// The vector as a table index.
    pub fn as_usize(self) -> (v: usize)
        ensures
            v == self.spec_vector(),
    {
        self.as_u8() as usize
    }
}

/// The handlers of the vector table.
#[derive(Debug, Clone, Copy, PartialEq, Eq, Structural)]
pub enum Handler {
    Breakpoint,
    DoubleFault,
    GeneralProtectionFault,
    PageFault,
    Timer,
    Keyboard,
}

/// How a handler ends.
#[derive(Debug, Clone, Copy, PartialEq, Eq, Structural)]
pub enum Outcome {
    /// Return to the interrupted code.
    Resume,
    /// Stop here for inspection; the interrupted code does not go on.
    Halt,
    /// Report and halt the processor for good.
    Fatal,
}

/// What a handler reports before it does anything else. Every report is
/// written with interrupt delivery suspended.
#[derive(Debug, Clone, Copy, PartialEq, Eq, Structural)]
pub enum Diagnostic {
    /// The interrupted frame.
    Frame,
    /// The error code, the handler's own stack pointer, and from the
    /// interrupted frame the instruction pointer, the stack pointer, the
    /// flags and both segments.
    Registers,
    /// The faulting address, the cause of the fault and the interrupted
    /// frame.
    FaultAddress,
    /// A note that the timer ticked.
    Tick,
    /// A note that a key was pressed.
    KeyPress,
}

/// What a handler does.
#[derive(Debug, Clone, Copy, PartialEq, Eq, Structural)]
pub struct Policy {
    /// What the handler reports.
    pub report: Diagnostic,
    /// The port from which the handler reads one byte, if any.
    pub reads_port: Option<u16>,
    /// The vector for which the handler acknowledges the interrupt
    /// controller, if any.
    pub acknowledges: Option<u8>,
    /// How the handler ends.
    pub outcome: Outcome,
}

/// One populated slot of the vector table.
#[derive(Debug, Clone, Copy, PartialEq, Eq, Structural)]
pub struct VectorEntry {
    pub vector: u8,
    pub handler: Handler,
    /// The slot of the task state's stack table on which the handler runs,
    /// if it does not run on the interrupted code's stack.
    pub stack_index: Option<u16>,
}

/// The handler installed on a vector, and its stack.
pub open spec fn spec_entry(vector: u8) -> Option<VectorEntry> {
    if vector == BREAKPOINT_VECTOR {
        Some(VectorEntry { vector, handler: Handler::Breakpoint, stack_index: None })
    } else if vector == DOUBLE_FAULT_VECTOR {
        Some(
            VectorEntry {
                vector,
                handler: Handler::DoubleFault,
                stack_index: Some(DOUBLE_FAULT_IST_INDEX),
            },
        )
    } else if vector == GENERAL_PROTECTION_VECTOR {
        Some(VectorEntry { vector, handler: Handler::GeneralProtectionFault, stack_index: None })
    } else if vector == PAGE_FAULT_VECTOR {
        Some(VectorEntry { vector, handler: Handler::PageFault, stack_index: None })
    } else if vector == 32 {
        Some(VectorEntry { vector, handler: Handler::Timer, stack_index: None })
    } else if vector == 33 {
        Some(VectorEntry { vector, handler: Handler::Keyboard, stack_index: None })
    } else {
        None
    }
}

/// What each handler does: the exceptions report and never return, the
/// hardware interrupts do their work, acknowledge their own vector and
/// return.
pub open spec fn spec_policy(handler: Handler) -> Policy {
    match handler {
        Handler::Breakpoint => Policy {
            report: Diagnostic::Frame,
            reads_port: None,
            acknowledges: None,
            outcome: Outcome::Halt,
        },
        Handler::DoubleFault => Policy {
            report: Diagnostic::Frame,
            reads_port: None,
            acknowledges: None,
            outcome: Outcome::Fatal,
        },
        Handler::GeneralProtectionFault => Policy {
            report: Diagnostic::Registers,
            reads_port: None,
            acknowledges: None,
            outcome: Outcome::Fatal,
        },
        Handler::PageFault => Policy {
            report: Diagnostic::FaultAddress,
            reads_port: None,
            acknowledges: None,
            outcome: Outcome::Fatal,
        },
        Handler::Timer => Policy {
            report: Diagnostic::Tick,
            reads_port: None,
            acknowledges: Some(32u8),
            outcome: Outcome::Resume,
        },
        Handler::Keyboard => Policy {
            report: Diagnostic::KeyPress,
            reads_port: Some(KEYBOARD_DATA_PORT),
            acknowledges: Some(33u8),
            outcome: Outcome::Resume,
        },
    }
}

/// The handler installed on a vector, and its stack; nothing for a vector
/// that is left empty.
pub fn entry(vector: u8) -> (e: Option<VectorEntry>)
    ensures
        e == spec_entry(vector),
{
    if vector == BREAKPOINT_VECTOR {
        Some(VectorEntry { vector, handler: Handler::Breakpoint, stack_index: None })
    } else if vector == DOUBLE_FAULT_VECTOR {
        Some(
            VectorEntry {
                vector,
                handler: Handler::DoubleFault,
                stack_index: Some(DOUBLE_FAULT_IST_INDEX),
            },
        )
    } else if vector == GENERAL_PROTECTION_VECTOR {
        Some(VectorEntry { vector, handler: Handler::GeneralProtectionFault, stack_index: None })
    } else if vector == PAGE_FAULT_VECTOR {
        Some(VectorEntry { vector, handler: Handler::PageFault, stack_index: None })
    } else if vector == InterruptIndex::Timer.as_u8() {
        Some(VectorEntry { vector, handler: Handler::Timer, stack_index: None })
    } else if vector == InterruptIndex::Keyboard.as_u8() {
        Some(VectorEntry { vector, handler: Handler::Keyboard, stack_index: None })
    } else {
        None
    }
}

/// The populated slots of the vector table, lowest vector first.
pub fn vector_table() -> (table: Vec<VectorEntry>)
    ensures
        forall|i: int| 0 <= i < table@.len() ==> spec_entry(table@[i].vector) == Some(table@[i]),
        forall|v: u8|
            spec_entry(v) is Some ==> exists|i: int|
                0 <= i < table@.len() && #[trigger] table@[i].vector == v,
        forall|i: int, j: int| 0 <= i < j < table@.len() ==> table@[i].vector < table@[j].vector,
{
    let mut table: Vec<VectorEntry> = Vec::new();
    let mut next: u16 = 0;
    while next < 256
        invariant
            next <= 256,
            forall|i: int|
                0 <= i < table@.len() ==> spec_entry(table@[i].vector) == Some(table@[i])
                    && table@[i].vector < next,
            forall|w: u8|
                w < next && spec_entry(w) is Some ==> exists|i: int|
                    0 <= i < table@.len() && #[trigger] table@[i].vector == w,
            forall|i: int, j: int|
                0 <= i < j < table@.len() ==> table@[i].vector < table@[j].vector,
        decreases 256 - next,
    {
        let v: u8 = next as u8;
        let ghost before = table@;
        match entry(v) {
            Some(e) => {
                table.push(e);
                assert(table@[table@.len() - 1].vector == v);
                assert forall|w: u8| w <= v && spec_entry(w) is Some implies exists|i: int|
                    0 <= i < table@.len() && #[trigger] table@[i].vector == w by {
                    if w < v {
                        let i = choose|i: int|
                            0 <= i < before.len() && #[trigger] before[i].vector == w;
                        assert(table@[i].vector == w);
                    }
                }
            },
            None => {},
        }
        next += 1;
    }
    table
}

/// What a handler does.
pub fn policy(handler: Handler) -> (p: Policy)
    ensures
        p == spec_policy(handler),
{
    match handler {
        Handler::Breakpoint => Policy {
            report: Diagnostic::Frame,
            reads_port: None,
            acknowledges: None,
            outcome: Outcome::Halt,
        },
        Handler::DoubleFault => Policy {
            report: Diagnostic::Frame,
            reads_port: None,
            acknowledges: None,
            outcome: Outcome::Fatal,
        },
        Handler::GeneralProtectionFault => Policy {
            report: Diagnostic::Registers,
            reads_port: None,
            acknowledges: None,
            outcome: Outcome::Fatal,
        },
        Handler::PageFault => Policy {
            report: Diagnostic::FaultAddress,
            reads_port: None,
            acknowledges: None,
            outcome: Outcome::Fatal,
        },
        Handler::Timer => Policy {
            report: Diagnostic::Tick,
            reads_port: None,
            acknowledges: Some(InterruptIndex::Timer.as_u8()),
            outcome: Outcome::Resume,
        },
        Handler::Keyboard => Policy {
            report: Diagnostic::KeyPress,
            reads_port: Some(KEYBOARD_DATA_PORT),
            acknowledges: Some(InterruptIndex::Keyboard.as_u8()),
            outcome: Outcome::Resume,
        },
    }
}

/// The steps that put the vector table into force, in order: load the table,
/// remap the controllers above the processor's own vectors, mask every line
/// but the timer's, and only then start interrupt delivery.
pub open spec fn init_plan() -> Seq<BootAction> {
    seq![
        BootAction::LoadVectorTable,
        BootAction::InitializeControllers { offset1: 32, offset2: 40 },
        BootAction::WriteMasks { mask1: 0xFE, mask2: 0xFF },
        BootAction::EnableInterrupts,
    ]
}

/// The steps that put the vector table into force.
pub fn init() -> (plan: Vec<BootAction>)
    ensures
        plan@ == init_plan(),
{
    let mut plan: Vec<BootAction> = Vec::new();
    plan.push(BootAction::LoadVectorTable);
    plan.push(BootAction::InitializeControllers { offset1: PIC_1_OFFSET, offset2: PIC_2_OFFSET });
    plan.push(BootAction::WriteMasks { mask1: BOOT_MASK_1, mask2: BOOT_MASK_2 });
    plan.push(BootAction::EnableInterrupts);
    assert(plan@ =~= init_plan());
    plan
}

/// How far the vector table has come.
#[derive(Debug, Clone, Copy, PartialEq, Eq, Structural)]
pub enum TableState {
    /// No table is loaded.
    Unbuilt,
    /// The table is loaded; interrupts are not delivered.
    Loaded,
    /// The table is loaded and interrupts are delivered.
    Active,
}

/// The state after a step of boot, or nothing where the step must not be
/// taken: interrupt delivery is not started before the table is loaded.
pub open spec fn spec_advance(state: TableState, action: BootAction) -> Option<TableState> {
    match action {
        BootAction::LoadVectorTable => Some(
            if state == TableState::Active {
                TableState::Active
            } else {
                TableState::Loaded
            },
        ),
        BootAction::EnableInterrupts => if state == TableState::Unbuilt {
            None
        } else {
            Some(TableState::Active)
        },
        BootAction::DisableInterrupts => Some(
            if state == TableState::Active {
                TableState::Loaded
            } else {
                state
            },
        ),
        _ => Some(state),
    }
}

/// The state after a run of steps, first step first, or nothing where one of
/// them must not be taken.
pub open spec fn spec_run(state: TableState, plan: Seq<BootAction>) -> Option<TableState>
    decreases plan.len(),
{
    if plan.len() == 0 {
        Some(state)
    } else {
        match spec_run(state, plan.drop_last()) {
            Some(before) => spec_advance(before, plan.last()),
            None => None,
        }
    }
}

/// Follows one step of boot.
pub fn advance(state: TableState, action: BootAction) -> (next: Option<TableState>)
    ensures
        next == spec_advance(state, action),
{
    match action {
        BootAction::LoadVectorTable => match state {
            TableState::Active => Some(TableState::Active),
            _ => Some(TableState::Loaded),
        },
        BootAction::EnableInterrupts => match state {
            TableState::Unbuilt => None,
            _ => Some(TableState::Active),
        },
        BootAction::DisableInterrupts => match state {
            TableState::Active => Some(TableState::Loaded),
            _ => Some(state),
        },
        _ => Some(state),
    }
}

/// A run that leaves the unbuilt state has loaded the table.
pub proof fn lemma_loaded_by_a_load(plan: Seq<BootAction>)
    requires
        spec_run(TableState::Unbuilt, plan) matches Some(s) && s != TableState::Unbuilt,
    ensures
        exists|j: int| 0 <= j < plan.len() && plan[j] == BootAction::LoadVectorTable,
    decreases plan.len(),
{
    if plan.len() > 0 {
        let front = plan.drop_last();
        let before = spec_run(TableState::Unbuilt, front)->0;
        if before != TableState::Unbuilt {
            lemma_loaded_by_a_load(front);
            let j = choose|j: int| 0 <= j < front.len() && front[j] == BootAction::LoadVectorTable;
            assert(plan[j] == BootAction::LoadVectorTable);
        } else {
            assert(plan[plan.len() - 1] == BootAction::LoadVectorTable);
        }
    }
}

/// Every part of a run that can be taken can be taken by itself.
pub proof fn lemma_run_of_prefix(plan: Seq<BootAction>, n: int)
    requires
        0 <= n <= plan.len(),
        spec_run(TableState::Unbuilt, plan) is Some,
    ensures
        spec_run(TableState::Unbuilt, plan.subrange(0, n)) is Some,
    decreases plan.len() - n,
{
    if n == plan.len() {
        assert(plan.subrange(0, n) == plan);
    } else {
        let front = plan.drop_last();
        lemma_run_of_prefix(front, n);
        assert(front.subrange(0, n) == plan.subrange(0, n));
    }
}

/// In every run that can be taken, the table is loaded before interrupt
/// delivery is started.
pub proof fn delivery_starts_after_the_table_is_loaded(plan: Seq<BootAction>, i: int)
    requires
        spec_run(TableState::Unbuilt, plan) is Some,
        0 <= i < plan.len(),
        plan[i] == BootAction::EnableInterrupts,
    ensures
        exists|j: int| 0 <= j < i && plan[j] == BootAction::LoadVectorTable,
{
    let upto = plan.subrange(0, i + 1);
    lemma_run_of_prefix(plan, i + 1);
    let front = upto.drop_last();
    assert(upto.last() == BootAction::EnableInterrupts);
    assert(front == plan.subrange(0, i));
    lemma_loaded_by_a_load(front);
    let j = choose|j: int| 0 <= j < front.len() && front[j] == BootAction::LoadVectorTable;
    assert(plan[j] == BootAction::LoadVectorTable);
}

/// The steps of this kernel's boot can all be taken, and the table is active
/// at their end.
pub proof fn boot_ends_active()
    ensures
        spec_run(TableState::Unbuilt, crate::cpu::init_plan()) == Some(TableState::Active),
{
    let plan = crate::cpu::init_plan();
    assert(plan =~= crate::gdt::init_plan() + init_plan());
    reveal_with_fuel(spec_run, 10);
    let head8 = plan.drop_last();
    let head7 = head8.drop_last();
    let head6 = head7.drop_last();
    let head5 = head6.drop_last();
    let head4 = head5.drop_last();
    let head3 = head4.drop_last();
    let head2 = head3.drop_last();
    let head1 = head2.drop_last();
    let head0 = head1.drop_last();
    assert(head0.len() == 0);
    assert(head1.last() == BootAction::DisableInterrupts);
    assert(head2.last() == BootAction::LoadDescriptorTable);
    assert(head5.last() == plan[4]);
    assert(head6.last() == BootAction::LoadVectorTable);
    assert(head7.last() == plan[6]);
    assert(head8.last() == plan[7]);
    assert(plan.last() == BootAction::EnableInterrupts);
    assert(spec_run(TableState::Unbuilt, head5) == Some(TableState::Unbuilt));
    assert(spec_run(TableState::Unbuilt, head6) == Some(TableState::Loaded));
}

/// Whether interrupt delivery is on, by the flags register.
pub open spec fn spec_are_enabled(rflags: u64) -> bool {
    rflags & INTERRUPT_FLAG != 0
}

/// Whether interrupt delivery is on, by the flags register: bit 9.
pub fn are_enabled(rflags: u64) -> (on: bool)
    ensures
        on == spec_are_enabled(rflags),
{
    rflags & INTERRUPT_FLAG != 0
}

/// What to do to interrupt delivery at one end of a critical section.
#[derive(Debug, Clone, Copy, PartialEq, Eq, Structural)]
pub enum Delivery {
    /// Leave it as it is.
    Keep,
    /// Turn it off.
    Disable,
    /// Turn it on.
    Enable,
}

/// The two ends of a critical section.
#[derive(Debug, Clone, Copy, PartialEq, Eq, Structural)]
pub struct CriticalSection {
    /// What to do before the protected work, and before any lock is taken.
    pub enter: Delivery,
    /// What to do after the protected work, and after every lock is released.
    pub exit: Delivery,
}

/// Interrupt delivery after `step` is taken.
pub open spec fn delivery_after(enabled: bool, step: Delivery) -> bool {
    match step {
        Delivery::Keep => enabled,
        Delivery::Disable => false,
        Delivery::Enable => true,
    }
}

/// The critical section for work that must run without interrupt delivery,
/// entered while delivery is as the flags register says: delivery is turned
/// off and on again where it was on, and left alone where it was off.
pub fn without(rflags: u64) -> (section: CriticalSection)
    ensures
        spec_are_enabled(rflags) ==> section == (CriticalSection {
            enter: Delivery::Disable,
            exit: Delivery::Enable,
        }),
        !spec_are_enabled(rflags) ==> section == (CriticalSection {
            enter: Delivery::Keep,
            exit: Delivery::Keep,
        }),
{
    if are_enabled(rflags) {
        CriticalSection { enter: Delivery::Disable, exit: Delivery::Enable }
    } else {
        CriticalSection { enter: Delivery::Keep, exit: Delivery::Keep }
    }
}

/// Inside a critical section interrupt delivery is off, and after it delivery
/// is exactly as it was before: on where it was on, off where it was off.
pub proof fn critical_section_restores_delivery(enabled: bool, section: CriticalSection)
    requires
        section == (if enabled {
            CriticalSection { enter: Delivery::Disable, exit: Delivery::Enable }
        } else {
            CriticalSection { enter: Delivery::Keep, exit: Delivery::Keep }
        }),
    ensures
        !delivery_after(enabled, section.enter),
        delivery_after(delivery_after(enabled, section.enter), section.exit) == enabled,
{
}

/// Why a page fault happened, as the processor reports it.
#[derive(Debug, Clone, Copy, PartialEq, Eq, Structural)]
pub struct PageFaultCause {
    /// The page was present and the access broke its protection; otherwise
    /// the page was not present.
    pub protection_violation: bool,
    /// The access was a write; otherwise a read.
    pub caused_by_write: bool,
    /// The access came from user mode.
    pub user_mode: bool,
    /// A reserved bit was set in a page table entry.
    pub malformed_table: bool,
    /// The access was an instruction fetch.
    pub instruction_fetch: bool,
}

/// The cause that a page fault error code reports: bits 0 to 4.
pub open spec fn spec_page_fault_cause(error_code: u64) -> PageFaultCause {
    PageFaultCause {
        protection_violation: error_code & 0x01 != 0,
        caused_by_write: error_code & 0x02 != 0,
        user_mode: error_code & 0x04 != 0,
        malformed_table: error_code & 0x08 != 0,
        instruction_fetch: error_code & 0x10 != 0,
    }
}

/// Decodes a page fault error code.
pub fn page_fault_cause(error_code: u64) -> (cause: PageFaultCause)
    ensures
        cause == spec_page_fault_cause(error_code),
{
    PageFaultCause {
        protection_violation: error_code & 0x01 != 0,
        caused_by_write: error_code & 0x02 != 0,
        user_mode: error_code & 0x04 != 0,
        malformed_table: error_code & 0x08 != 0,
        instruction_fetch: error_code & 0x10 != 0,
    }
}

/// Every vector that the processor reserves and that has a handler is
/// populated without regard to the interrupt controllers, and the double
/// fault handler alone runs on a stack of its own.
pub proof fn double_fault_runs_on_its_own_stack(vector: u8)
    ensures
        spec_entry(DOUBLE_FAULT_VECTOR) matches Some(e) && e.stack_index == Some(
            DOUBLE_FAULT_IST_INDEX,
        ),
        vector != DOUBLE_FAULT_VECTOR ==> (spec_entry(vector) matches Some(e)
            ==> e.stack_index is None),
{
}

/// A hardware interrupt's handler acknowledges the vector on which it was
/// installed, and returns; an exception's handler acknowledges nothing and
/// does not return.
pub proof fn handlers_acknowledge_their_own_vector(vector: u8)
    ensures
        spec_entry(vector) matches Some(e) ==> {
            let p = spec_policy(e.handler);
            &&& vector >= PIC_1_OFFSET ==> p.acknowledges == Some(vector) && p.outcome
                == Outcome::Resume
            &&& vector < PIC_1_OFFSET ==> p.acknowledges is None && p.outcome != Outcome::Resume
        },
{
}

} // verus!
