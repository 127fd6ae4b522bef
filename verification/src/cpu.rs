//! Processor bring-up: the privileged steps of boot as data, and their order.

use vstd::prelude::*;
use crate::gdt::SegmentSelector;

verus! {

/// One privileged step of boot. The library decides which steps are taken
/// and in which order; taking them is the caller's part.
#[derive(Debug, Clone, Copy, PartialEq, Eq, Structural)]
pub enum BootAction {
    /// Stop interrupt delivery.
    DisableInterrupts,
    /// Load the descriptor table register.
    LoadDescriptorTable,
    /// Reload the code segment register.
    SetCodeSegment(SegmentSelector),
    /// Load the task register.
    LoadTaskState(SegmentSelector),
    /// Reload the stack segment register.
    SetStackSegment(SegmentSelector),
    /// Load the interrupt vector table register.
    LoadVectorTable,
    /// Run the controllers' initialisation sequence with these vector offsets.
    InitializeControllers { offset1: u8, offset2: u8 },
    /// Write the controllers' mask registers.
    WriteMasks { mask1: u8, mask2: u8 },
    /// Start interrupt delivery.
    EnableInterrupts,
}

/// All steps of processor bring-up, in order: descriptor tables first, then
/// the vector table and the interrupt controllers.
pub open spec fn init_plan() -> Seq<BootAction> {
    crate::gdt::init_plan() + crate::interrupts::init_plan()
}

/// Position of the first occurrence of `action` in `plan`, or the plan's
/// length where it does not occur.
pub open spec fn position(plan: Seq<BootAction>, action: BootAction) -> int
    decreases plan.len(),
{
    if plan.len() == 0 {
        0
    } else if plan[0] == action {
        0
    } else {
        1 + position(plan.drop_first(), action)
    }
}

/// All steps of processor bring-up, in order.
pub fn init() -> (plan: Vec<BootAction>)
    ensures
        plan@ == init_plan(),
{
    let mut plan: Vec<BootAction> = crate::gdt::init();
    let mut rest: Vec<BootAction> = crate::interrupts::init();
    plan.append(&mut rest);
    plan
}

/// Interrupt delivery starts last: after the descriptor table is loaded,
/// after the vector table is loaded, and after the controllers are remapped
/// and masked. The descriptor table is loaded before the vector table.
pub proof fn interrupts_are_enabled_last()
    ensures
        init_plan().last() == BootAction::EnableInterrupts,
        position(init_plan(), BootAction::EnableInterrupts) == init_plan().len() - 1,
        position(init_plan(), BootAction::LoadDescriptorTable) < position(
            init_plan(),
            BootAction::LoadVectorTable,
        ),
        position(init_plan(), BootAction::LoadVectorTable) < position(
            init_plan(),
            BootAction::EnableInterrupts,
        ),
        position(init_plan(), BootAction::SetStackSegment(SegmentSelector { bits: 0x10 }))
            < position(init_plan(), BootAction::LoadVectorTable),
{
    let plan = init_plan();
    assert(plan =~= seq![
        BootAction::DisableInterrupts,
        BootAction::LoadDescriptorTable,
        BootAction::SetCodeSegment(SegmentSelector { bits: 0x08 }),
        BootAction::LoadTaskState(SegmentSelector { bits: 0x28 }),
        BootAction::SetStackSegment(SegmentSelector { bits: 0x10 }),
        BootAction::LoadVectorTable,
        BootAction::InitializeControllers { offset1: 32, offset2: 40 },
        BootAction::WriteMasks { mask1: 0xFE, mask2: 0xFF },
        BootAction::EnableInterrupts,
    ]);
    reveal_with_fuel(position, 10);
    let tail1 = plan.drop_first();
    let tail2 = tail1.drop_first();
    let tail3 = tail2.drop_first();
    let tail4 = tail3.drop_first();
    let tail5 = tail4.drop_first();
    let tail6 = tail5.drop_first();
    let tail7 = tail6.drop_first();
    let tail8 = tail7.drop_first();
    assert(tail8[0] == BootAction::EnableInterrupts);
    assert(tail5[0] == BootAction::LoadVectorTable);
    assert(tail4[0] == BootAction::SetStackSegment(SegmentSelector { bits: 0x10 }));
    assert(tail1[0] == BootAction::LoadDescriptorTable);
}

} // verus!
