//! Descriptor tables: the segments of the kernel's table in their order, the
//! selectors that follow from the order, and the task state with the
//! dedicated stack of the double fault handler.
//!
//! The table and the task state are those of the `x86_64` crate. What this
//! module takes on trust about that crate is gathered in its first part; the
//! second part is proved from it.

use vstd::prelude::*;
use x86_64::structures::gdt::{Descriptor, GlobalDescriptorTable};
use x86_64::structures::tss::TaskStateSegment;
use x86_64::VirtAddr;
use crate::cpu::BootAction;

verus! {

/// Slot of the task state's stack table that the double fault handler uses.
pub const DOUBLE_FAULT_IST_INDEX: u16 = 0;

/// Size in bytes of the double fault handler's stack.
pub const STACK_SIZE: u64 = 4096 * 8;

/// Number of 8-byte entries in the descriptor table.
pub const TABLE_SLOTS: usize = 8;

/// Number of entries in the task state's stack table.
pub const IST_ENTRIES: usize = 7;

// ---------------------------------------------------------------------------
// Taken on trust: the `x86_64` crate's descriptor table and task state
// ---------------------------------------------------------------------------
/// `x86_64::structures::gdt::GlobalDescriptorTable`, opaque to the verifier.
#[verifier::external_type_specification]
#[verifier::external_body]
pub struct ExGlobalDescriptorTable<const MAX: usize>(GlobalDescriptorTable<MAX>);

/// `x86_64::structures::gdt::Descriptor`, opaque to the verifier.
#[verifier::external_type_specification]
#[verifier::external_body]
pub struct ExDescriptor(Descriptor);

/// `x86_64::structures::tss::TaskStateSegment`, opaque to the verifier.
#[verifier::external_type_specification]
#[verifier::external_body]
pub struct ExTaskStateSegment(TaskStateSegment);

/// The 8-byte entries that a table holds, the null entry first: what
/// `GlobalDescriptorTable::entries` hands out, each entry by its raw value.
/// This speaks of a table that is not loaded: the processor writes to the
/// entries of a loaded table, and nothing here is called on one.
pub uninterp spec fn table_entries(table: GlobalDescriptorTable) -> Seq<u64>;

/// The 8-byte entries that a descriptor takes in a table: one for a code or
/// data segment, two for a system segment, low half first.
pub uninterp spec fn descriptor_entries(descriptor: Descriptor) -> Seq<u64>;

/// The seven stack tops of a task state's interrupt stack table, as
/// addresses.
pub uninterp spec fn stack_table(task_state: TaskStateSegment) -> Seq<u64>;

/// `GlobalDescriptorTable::new`: a table of eight slots that holds the null
/// entry and nothing else.
pub assume_specification[ GlobalDescriptorTable::new ]() -> (table: GlobalDescriptorTable)
    ensures
        table_entries(table) == seq![0u64],
;

/// `Descriptor::kernel_code_segment`: the one entry of a 64-bit code segment
/// at privilege level 0.
pub assume_specification[ Descriptor::kernel_code_segment ]() -> (d: Descriptor)
    ensures
        descriptor_entries(d) == seq![KERNEL_CODE64],
;

/// `Descriptor::kernel_data_segment`: the one entry of a data segment at
/// privilege level 0.
pub assume_specification[ Descriptor::kernel_data_segment ]() -> (d: Descriptor)
    ensures
        descriptor_entries(d) == seq![KERNEL_DATA],
;

/// `Descriptor::user_data_segment`: the one entry of a data segment at
/// privilege level 3.
pub assume_specification[ Descriptor::user_data_segment ]() -> (d: Descriptor)
    ensures
        descriptor_entries(d) == seq![USER_DATA],
;

/// `Descriptor::user_code_segment`: the one entry of a 64-bit code segment
/// at privilege level 3.
pub assume_specification[ Descriptor::user_code_segment ]() -> (d: Descriptor)
    ensures
        descriptor_entries(d) == seq![USER_CODE64],
;

/// `Descriptor::tss_segment`: a system segment of two entries at privilege
/// level 0. The entries hold the address of the task state, so no more is
/// said of them.
pub assume_specification[ Descriptor::tss_segment ](tss: &'static TaskStateSegment) -> (d:
    Descriptor)
    ensures
        descriptor_entries(d).len() == 2,
        privilege_of(descriptor_entries(d)[0]) == 0,
;

/// `TaskStateSegment::new`: a task state whose interrupt stack table holds
/// seven zero addresses.
pub assume_specification[ TaskStateSegment::new ]() -> (task_state: TaskStateSegment)
    ensures
        stack_table(task_state) == Seq::new(7, |i: int| 0u64),
;

/// `GlobalDescriptorTable::append`: puts the descriptor's entries behind the
/// entries that the table holds and returns the selector of the first of
/// them, at the descriptor's privilege level. The crate panics where the
/// entries do not fit the table, so that is left out.
#[verifier::external_body]
fn append_descriptor(table: &mut GlobalDescriptorTable, entry: Descriptor) -> (selector:
    SegmentSelector)
    requires
        table_entries(*old(table)).len() + descriptor_entries(entry).len() <= TABLE_SLOTS,
    ensures
        table_entries(*final(table)) == table_entries(*old(table)) + descriptor_entries(entry),
        selector.bits == table_entries(*old(table)).len() * 8 + privilege_of(
            descriptor_entries(entry)[0],
        ),
{
    SegmentSelector { bits: table.append(entry).0 }
}

/// Writes one entry of the task state's interrupt stack table, through
/// `VirtAddr::new`. The crate panics on an address that is not canonical, so
/// that is left out.
#[verifier::external_body]
fn set_interrupt_stack(task_state: &mut TaskStateSegment, index: usize, top: u64)
    requires
        index < IST_ENTRIES,
        canonical(top),
    ensures
        stack_table(*final(task_state)) == stack_table(*old(task_state)).update(
            index as int,
            top,
        ),
{
    task_state.interrupt_stack_table[index] = VirtAddr::new(top);
}

/// `GlobalDescriptorTable::entries`: the entries that the table holds, each
/// by its raw value.
#[verifier::external_body]
fn read_entries(table: &GlobalDescriptorTable) -> (entries: Vec<u64>)
    ensures
        entries@ == table_entries(*table),
{
    table.entries().iter().map(|entry| entry.raw()).collect()
}

// ---------------------------------------------------------------------------
// Proved
// ---------------------------------------------------------------------------
/// Selector of the kernel's code segment: slot 1, privilege level 0.
pub const KERNEL_CODE_SELECTOR: u16 = 0x08;

/// Selector of the kernel's data segment: slot 2, privilege level 0.
pub const KERNEL_DATA_SELECTOR: u16 = 0x10;

/// Selector of the task state: slot 5, privilege level 0.
pub const TASK_STATE_SELECTOR: u16 = 0x28;

/// Entry of a 64-bit code segment at privilege level 0.
pub const KERNEL_CODE64: u64 = 0x00AF_9B00_0000_FFFF;

/// Entry of a data segment at privilege level 0.
pub const KERNEL_DATA: u64 = 0x00CF_9300_0000_FFFF;

/// Entry of a data segment at privilege level 3.
pub const USER_DATA: u64 = 0x00CF_F300_0000_FFFF;

/// Entry of a 64-bit code segment at privilege level 3.
pub const USER_CODE64: u64 = 0x00AF_FB00_0000_FFFF;

/// Privilege level of a segment, by the first of its entries: bits 45 and 46.
pub open spec fn privilege_of(entry: u64) -> u16 {
    ((entry >> 45) & 3) as u16
}

/// Whether code can be run from a segment, by its entry: bit 43.
pub open spec fn executable_of(entry: u64) -> bool {
    entry & 0x0000_0800_0000_0000 != 0
}

/// Whether an address has bits 48 to 63 equal to bit 47.
pub open spec fn canonical(address: u64) -> bool {
    address < 0x0000_8000_0000_0000 || address >= 0xFFFF_8000_0000_0000
}

/// The segments of the kernel's table.
#[derive(Debug, Clone, Copy, PartialEq, Eq, Structural)]
pub enum Segment {
    KernelCode,
    KernelData,
    UserData,
    UserCode,
    TaskState,
}

impl Segment {
    /// Privilege level of the segment: 0 for the kernel, 3 for user code.
    pub open spec fn spec_privilege(self) -> u16 {
        match self {
            Segment::UserData | Segment::UserCode => 3,
            _ => 0,
        }
    }

    /// Whether code can be run from the segment.
    pub open spec fn spec_executable(self) -> bool {
        self == Segment::KernelCode || self == Segment::UserCode
    }

    /// Number of table entries the segment takes: the task state's is a
    /// system segment of double size.
    pub open spec fn spec_slots(self) -> nat {
        if self == Segment::TaskState {
            2
        } else {
            1
        }
    }

    /// Whether `entries` can be the table entries of the segment: a code or
    /// data segment has its one fixed entry, the task state two entries at
    /// privilege level 0.
    pub open spec fn describes(self, entries: Seq<u64>) -> bool {
        match self {
            Segment::KernelCode => entries == seq![KERNEL_CODE64],
            Segment::KernelData => entries == seq![KERNEL_DATA],
            Segment::UserData => entries == seq![USER_DATA],
            Segment::UserCode => entries == seq![USER_CODE64],
            Segment::TaskState => entries.len() == 2 && privilege_of(entries[0]) == 0,
        }
    }

    /// Privilege level of the segment.
    pub fn privilege(self) -> (p: u16)
        ensures
            p == self.spec_privilege(),
    {
        match self {
            Segment::UserData | Segment::UserCode => 3,
            _ => 0,
        }
    }

    /// Whether code can be run from the segment.
    pub fn executable(self) -> (x: bool)
        ensures
            x == self.spec_executable(),
    {
        match self {
            Segment::KernelCode | Segment::UserCode => true,
            _ => false,
        }
    }

    /// Number of table entries the segment takes.
    pub fn slots(self) -> (n: usize)
        ensures
            n == self.spec_slots(),
    {
        match self {
            Segment::TaskState => 2,
            _ => 1,
        }
    }

    /// The descriptor of the segment. The task state's descriptor points to
    /// `tss`.
    pub fn descriptor(self, tss: &'static TaskStateSegment) -> (d: Descriptor)
        ensures
            self.describes(descriptor_entries(d)),
    {
        match self {
            Segment::KernelCode => Descriptor::kernel_code_segment(),
            Segment::KernelData => Descriptor::kernel_data_segment(),
            Segment::UserData => Descriptor::user_data_segment(),
            Segment::UserCode => Descriptor::user_code_segment(),
            Segment::TaskState => Descriptor::tss_segment(tss),
        }
    }
}

/// The entries of a segment say what the segment is: they take the
/// segment's number of slots and carry its privilege level, and a code or
/// data segment's entry carries whether code can be run from it.
pub proof fn entries_carry_the_attributes(segment: Segment, entries: Seq<u64>)
    requires
        segment.describes(entries),
    ensures
        entries.len() == segment.spec_slots(),
        privilege_of(entries[0]) == segment.spec_privilege(),
        segment != Segment::TaskState ==> executable_of(entries[0]) == segment.spec_executable(),
{
    assert(((0x00AF_9B00_0000_FFFFu64 >> 45) & 3) == 0) by (bit_vector);
    assert(((0x00CF_9300_0000_FFFFu64 >> 45) & 3) == 0) by (bit_vector);
    assert(((0x00CF_F300_0000_FFFFu64 >> 45) & 3) == 3) by (bit_vector);
    assert(((0x00AF_FB00_0000_FFFFu64 >> 45) & 3) == 3) by (bit_vector);
    assert(0x00AF_9B00_0000_FFFFu64 & 0x0000_0800_0000_0000 != 0) by (bit_vector);
    assert(0x00CF_9300_0000_FFFFu64 & 0x0000_0800_0000_0000 == 0) by (bit_vector);
    assert(0x00CF_F300_0000_FFFFu64 & 0x0000_0800_0000_0000 == 0) by (bit_vector);
    assert(0x00AF_FB00_0000_FFFFu64 & 0x0000_0800_0000_0000 != 0) by (bit_vector);
}

/// A 16-bit selector: the slot of a descriptor, times eight, plus the
/// privilege level with which it is requested.
#[derive(Debug, Clone, Copy, PartialEq, Eq, Structural)]
pub struct SegmentSelector {
    pub bits: u16,
}

/// The selectors that are activated once the table is loaded.
#[derive(Debug, Clone, Copy, PartialEq, Eq, Structural)]
pub struct Selectors {
    pub code_selector: SegmentSelector,
    pub data_selector: SegmentSelector,
    pub tss_selector: SegmentSelector,
}

/// The segments of the table, in table order.
pub open spec fn table_plan() -> Seq<Segment> {
    seq![
        Segment::KernelCode,
        Segment::KernelData,
        Segment::UserData,
        Segment::UserCode,
        Segment::TaskState,
    ]
}

/// The segments of the table, in table order.
pub fn segments() -> (plan: Vec<Segment>)
    ensures
        plan@ == table_plan(),
{
    let mut plan: Vec<Segment> = Vec::new();
    plan.push(Segment::KernelCode);
    plan.push(Segment::KernelData);
    plan.push(Segment::UserData);
    plan.push(Segment::UserCode);
    plan.push(Segment::TaskState);
    assert(plan@ =~= table_plan());
    plan
}

/// The entries that a table holds, the null entry first.
pub fn entries(table: &GlobalDescriptorTable) -> (entries: Vec<u64>)
    ensures
        entries@ == table_entries(*table),
{
    read_entries(table)
}

/// Adds a segment behind the entries that the table holds and returns its
/// selector: its slot times eight, plus its privilege level. A table without
/// room for the segment is left as it is.
pub fn append(
    table: &mut GlobalDescriptorTable,
    segment: Segment,
    tss: &'static TaskStateSegment,
) -> (selector: Option<SegmentSelector>)
    ensures
        selector is Some <==> table_entries(*old(table)).len() + segment.spec_slots()
            <= TABLE_SLOTS,
        selector matches Some(s) ==> {
            &&& s.bits == table_entries(*old(table)).len() * 8 + segment.spec_privilege()
            &&& exists|added: Seq<u64>|
                segment.describes(added) && table_entries(*final(table)) == table_entries(
                    *old(table),
                ) + added
        },
        selector is None ==> table_entries(*final(table)) == table_entries(*old(table)),
{
    let used: usize = read_entries(table).len();
    if used > TABLE_SLOTS - segment.slots() {
        return None;
    }
    let descriptor: Descriptor = segment.descriptor(tss);
    proof {
        entries_carry_the_attributes(segment, descriptor_entries(descriptor));
    }
    let selector: SegmentSelector = append_descriptor(table, descriptor);
    Some(selector)
}

/// The kernel's table and the selectors to activate: kernel code, kernel
/// data, user data, user code and the task state, in slots 1 to 5 (the task
/// state taking 5 and 6). The task state's descriptor points to `tss`.
pub fn layout(tss: &'static TaskStateSegment) -> (r: (GlobalDescriptorTable, Selectors))
    ensures
        table_entries(r.0).len() == 7,
        table_entries(r.0).subrange(0, 5) == seq![
            0u64,
            KERNEL_CODE64,
            KERNEL_DATA,
            USER_DATA,
            USER_CODE64,
        ],
        privilege_of(table_entries(r.0)[5]) == 0,
        r.1.code_selector.bits == KERNEL_CODE_SELECTOR,
        r.1.data_selector.bits == KERNEL_DATA_SELECTOR,
        r.1.tss_selector.bits == TASK_STATE_SELECTOR,
{
    let mut table: GlobalDescriptorTable = GlobalDescriptorTable::new();
    let code: Option<SegmentSelector> = append(&mut table, Segment::KernelCode, tss);
    let data: Option<SegmentSelector> = append(&mut table, Segment::KernelData, tss);
    let user_data: Option<SegmentSelector> = append(&mut table, Segment::UserData, tss);
    let user_code: Option<SegmentSelector> = append(&mut table, Segment::UserCode, tss);
    assert(table_entries(table) =~= seq![0u64, KERNEL_CODE64, KERNEL_DATA, USER_DATA, USER_CODE64]);
    let ghost before = table_entries(table);
    let task_state: Option<SegmentSelector> = append(&mut table, Segment::TaskState, tss);
    assert(table_entries(table).subrange(0, 5) =~= before);
    let selectors = Selectors {
        code_selector: code.unwrap(),
        data_selector: data.unwrap(),
        tss_selector: task_state.unwrap(),
    };
    (table, selectors)
}

/// The steps that put the descriptor table into force, in order: with
/// interrupts off, load the table, then activate the code selector, the task
/// state and the stack selector.
pub open spec fn init_plan() -> Seq<BootAction> {
    seq![
        BootAction::DisableInterrupts,
        BootAction::LoadDescriptorTable,
        BootAction::SetCodeSegment(SegmentSelector { bits: 0x08 }),
        BootAction::LoadTaskState(SegmentSelector { bits: 0x28 }),
        BootAction::SetStackSegment(SegmentSelector { bits: 0x10 }),
    ]
}

/// The steps that put the descriptor table into force.
pub fn init() -> (plan: Vec<BootAction>)
    ensures
        plan@ == init_plan(),
{
    let mut plan: Vec<BootAction> = Vec::new();
    plan.push(BootAction::DisableInterrupts);
    plan.push(BootAction::LoadDescriptorTable);
    plan.push(BootAction::SetCodeSegment(SegmentSelector { bits: KERNEL_CODE_SELECTOR }));
    plan.push(BootAction::LoadTaskState(SegmentSelector { bits: TASK_STATE_SELECTOR }));
    plan.push(BootAction::SetStackSegment(SegmentSelector { bits: KERNEL_DATA_SELECTOR }));
    assert(plan@ =~= init_plan());
    plan
}

/// The task state for a double fault stack that starts at `stack_start`: the
/// stack's top, `stack_start + STACK_SIZE`, stands in the double fault slot
/// and every other slot is zero. There is none when the top would lie past
/// the end of the address space or is no canonical address.
pub fn task_state(stack_start: u64) -> (tss: Option<TaskStateSegment>)
    ensures
        tss is Some <==> stack_start + STACK_SIZE <= u64::MAX && canonical(
            (stack_start + STACK_SIZE) as u64,
        ),
        tss matches Some(t) ==> stack_table(t) == Seq::new(
            7,
            |i: int|
                if i == DOUBLE_FAULT_IST_INDEX {
                    (stack_start + STACK_SIZE) as u64
                } else {
                    0u64
                },
        ),
{
    match stack_start.checked_add(STACK_SIZE) {
        Some(stack_end) => {
            if stack_end < 0x0000_8000_0000_0000 || stack_end >= 0xFFFF_8000_0000_0000 {
                let mut tss: TaskStateSegment = TaskStateSegment::new();
                set_interrupt_stack(&mut tss, DOUBLE_FAULT_IST_INDEX as usize, stack_end);
                assert(stack_table(tss) =~= Seq::new(
                    7,
                    |i: int|
                        if i == DOUBLE_FAULT_IST_INDEX {
                            stack_end
                        } else {
                            0u64
                        },
                ));
                Some(tss)
            } else {
                None
            }
        },
        None => None,
    }
}

/// Where the stack of a handler starts, by the stack index of its vector
/// table entry: at the named entry of the task state, or where the
/// interrupted code's stack was when the entry names none.
pub open spec fn handler_stack_pointer(
    stack_index: Option<u16>,
    task_state: TaskStateSegment,
    interrupted_stack_pointer: u64,
) -> u64 {
    match stack_index {
        Some(i) => stack_table(task_state)[i as int],
        None => interrupted_stack_pointer,
    }
}

/// A handler whose entry names the double fault slot starts on the dedicated
/// stack wherever the interrupted code's stack pointer was, so what it pushes
/// lies outside every region that does not overlap the dedicated stack.
pub proof fn double_fault_stack_is_isolated(
    task_state: TaskStateSegment,
    stack_start: u64,
    interrupted_stack_pointer: u64,
    low: u64,
    high: u64,
    depth: u64,
)
    requires
        stack_start + STACK_SIZE <= u64::MAX,
        stack_table(task_state)[DOUBLE_FAULT_IST_INDEX as int] == stack_start + STACK_SIZE,
        high <= stack_start || stack_start + STACK_SIZE <= low,
        0 < depth <= STACK_SIZE,
    ensures
        handler_stack_pointer(
            Some(DOUBLE_FAULT_IST_INDEX),
            task_state,
            interrupted_stack_pointer,
        ) == stack_start + STACK_SIZE,
        ({
            let top = handler_stack_pointer(
                Some(DOUBLE_FAULT_IST_INDEX),
                task_state,
                interrupted_stack_pointer,
            );
            &&& stack_start <= top - depth
            &&& !(low <= top - depth < high)
        }),
{
}

} // verus!
