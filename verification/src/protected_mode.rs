//! The boot-stage transition protocol: the minimal flat descriptor table and
//! the documented, order-critical sequences of control-register, descriptor
//! and segment-register operations that move the processor from 16-bit real
//! mode through unreal mode into 32-bit protected mode.
//!
//! Every step below is a privileged hardware instruction with no
//! software-visible error channel, so correctness is the exact sequence
//! itself. The transitions are therefore modelled as functions from the
//! observed processor state to the precise list of hardware steps to
//! execute, in order; the runner that issues the instructions lives outside
//! this crate.

use vstd::prelude::*;

verus! {

/// Selector of the flat code descriptor in the boot GDT.
pub const FLAT_CODE_SELECTOR: u16 = 0x8;

/// Selector of the flat data descriptor in the boot GDT.
pub const FLAT_DATA_SELECTOR: u16 = 0x10;

/// The minimal global descriptor table for protected mode: a null
/// descriptor, then flat code and data descriptors covering the full 32-bit
/// space with 4 KiB granularity.
#[derive(Clone, Copy, Debug, PartialEq, Eq, Structural)]
pub struct GdtProtectedMode {
    pub zero: u64,
    pub code: u64,
    pub data: u64,
}

/// The operand of the descriptor-table load instruction: the table's size in
/// bytes minus one, and the address of the table in memory.
#[derive(Clone, Copy, Debug, PartialEq, Eq, Structural)]
pub struct GdtPointer {
    /// Size of the descriptor table, minus one.
    pub limit: u16,
    /// Location of the memory region containing the descriptor table.
    pub base: u64,
}

/// The addressing modes the processor passes through during boot, in order.
#[derive(Clone, Copy, Debug, PartialEq, Eq, Structural)]
pub enum ProcessorMode {
    /// 16-bit instructions, 20-bit segmented addressing: the initial state.
    RealMode16,
    /// 16-bit instructions whose data segments retain 32-bit-flat limits.
    UnrealMode16,
    /// 32-bit instructions over the flat descriptor table.
    ProtectedMode32,
    /// 64-bit long mode, entered by a later stage once paging is prepared.
    LongMode64,
}

/// One hardware step of a mode transition. The runner must execute the steps
/// of a transition exactly in sequence: reordering or omission produces a
/// silent wrong-mode execution or an unrecoverable fault.
#[derive(Clone, Copy, Debug, PartialEq, Eq, Structural)]
pub enum BootStep {
    /// Mask maskable interrupts.
    DisableInterrupts,
    /// Re-enable maskable interrupts.
    EnableInterrupts,
    /// Load the descriptor-table register from the given pointer.
    LoadGdt(GdtPointer),
    /// Write the given value to the primary control register.
    WriteCr0(u32),
    /// Load ds, es, fs, gs and ss with the given selector, refreshing their
    /// cached descriptors from the current descriptor table.
    LoadDataSegments(u16),
    /// Restore the given saved selector into ds; the hidden descriptor cache
    /// keeps the limits it already holds.
    RestoreDataSegment(u16),
    /// Restore the given saved selector into ss, keeping the cached limits.
    RestoreStackSegment(u16),
    /// Align the stack pointer down for 32-bit code.
    AlignStack,
    /// Push the entry point of the next stage onto the stack.
    PushEntryPoint(u32),
    /// Far jump through the given code selector, forcing the instruction
    /// pipeline to re-fetch the code segment descriptor.
    FarJumpToSelector(u16),
    /// After the far jump: reload ds, es and ss with the given selector for
    /// 32-bit execution.
    ReloadProtectedSegments(u16),
    /// Pop the pushed entry point and call it.
    CallPushedEntryPoint,
    /// Halt forever: the fallback if the next stage ever returns, since no
    /// valid caller exists at this layer.
    HaltLoop,
}

/// One edge of the processor-mode state machine: the mode it starts from,
/// the mode the steps leave the processor in, and the exact hardware steps
/// to execute in order.
#[derive(Debug)]
pub struct ModeTransition {
    pub from: ProcessorMode,
    pub to: ProcessorMode,
    pub steps: Vec<BootStep>,
}

/// Interrupts stay masked for the whole sequence: the first step masks them
/// and no step before the last re-enables them. An interrupt dispatched
/// between the descriptor, control-register and segment operations of a
/// transition would go through half-switched processor state, which is
/// unrecoverable, so every transition sequence must satisfy this.
pub open spec fn spec_masked_throughout(steps: Seq<BootStep>) -> bool {
    &&& steps.len() > 0
    &&& steps[0] == BootStep::DisableInterrupts
    &&& forall|k: int|
        0 < k < steps.len() && steps[k] == BootStep::EnableInterrupts ==> k == steps.len() - 1
}

impl GdtProtectedMode {
    /// The flat-model table: a null descriptor, a 4 GiB code descriptor and
    /// a 4 GiB data descriptor, both base 0, present, writable/readable,
    /// 32-bit, page-granular.
    pub fn new() -> (r: Self)
        ensures
            r.zero == 0,
            r.code == 0x00cf_9a00_0000_ffffu64,
            r.data == 0x00cf_9200_0000_ffffu64,
    {
        let limit: u64 = {
            let limit_low: u64 = 0xffff;
            let limit_high: u64 = 0xf << 48;
            limit_high | limit_low
        };
        let access_common: u64 = {
            let present: u64 = 1 << 47;
            let user_segment: u64 = 1 << 44;
            let read_write: u64 = 1 << 41;
            present | user_segment | read_write
        };
        let protected_mode = 1u64 << 54;
        let granularity = 1u64 << 55;
        let base_flags = protected_mode | granularity | access_common | limit;
        let executable = 1u64 << 43;
        proof {
            assert({
                let lim = (0xfu64 << 48u64) | 0xffffu64;
                let acc = (1u64 << 47u64) | (1u64 << 44u64) | (1u64 << 41u64);
                let base = (1u64 << 54u64) | (1u64 << 55u64) | acc | lim;
                base | (1u64 << 43u64) == 0x00cf_9a00_0000_ffffu64 && base
                    == 0x00cf_9200_0000_ffffu64
            }) by (bit_vector);
        }
        Self { zero: 0, code: base_flags | executable, data: base_flags }
    }

    /// The two steps that make this table live, given its location in
    /// memory: mask interrupts, then load the descriptor-table register with
    /// a limit of 23 (three 8-byte descriptors, minus one). Interrupts stay
    /// masked, since an interrupt dispatched through a half-switched
    /// descriptor state is unrecoverable.
    pub fn clear_interrupts_and_load(&self, location: u64) -> (steps: Vec<BootStep>)
        ensures
            steps@ == seq![
                BootStep::DisableInterrupts,
                BootStep::LoadGdt(GdtPointer { limit: 23, base: location }),
            ],
            spec_masked_throughout(steps@),
    {
        let pointer = GdtPointer { limit: 3 * 8 - 1, base: location };
        let mut steps: Vec<BootStep> = Vec::new();
        steps.push(BootStep::DisableInterrupts);
        steps.push(BootStep::LoadGdt(pointer));
        proof {
            assert(steps@ =~= seq![
                BootStep::DisableInterrupts,
                BootStep::LoadGdt(GdtPointer { limit: 23, base: location }),
            ]);
        }
        steps
    }
}

/// The real-mode to unreal-mode transition: with the saved data and stack
/// selectors and the current primary control-register value in hand, load
/// the flat descriptor table with interrupts masked, toggle the
/// processor-enable bit on, refresh the data-segment caches from the flat
/// data descriptor, toggle the bit back off, restore the saved selectors
/// (whose hidden caches now keep the 32-bit-flat limits), and re-enable
/// interrupts. The result is 16-bit real-mode execution with 32-bit-range
/// data access.
pub fn enter_unreal_mode(gdt: &GdtProtectedMode, cr0: u32, ds: u16, ss: u16, gdt_location: u64) -> (t:
    ModeTransition)
    requires
        cr0 & 1 == 0,  // the processor-enable bit is clear: real mode
    ensures
        t.from == ProcessorMode::RealMode16,
        t.to == ProcessorMode::UnrealMode16,
        t.steps@ == seq![
            BootStep::DisableInterrupts,
            BootStep::LoadGdt(GdtPointer { limit: 23, base: gdt_location }),
            BootStep::WriteCr0(cr0 | 1),
            BootStep::LoadDataSegments(FLAT_DATA_SELECTOR),
            BootStep::WriteCr0(cr0),
            BootStep::RestoreDataSegment(ds),
            BootStep::RestoreStackSegment(ss),
            BootStep::EnableInterrupts,
        ],
        spec_masked_throughout(t.steps@),
{
    let mut steps = gdt.clear_interrupts_and_load(gdt_location);
    steps.push(BootStep::WriteCr0(cr0 | 1));
    steps.push(BootStep::LoadDataSegments(FLAT_DATA_SELECTOR));
    steps.push(BootStep::WriteCr0(cr0));
    steps.push(BootStep::RestoreDataSegment(ds));
    steps.push(BootStep::RestoreStackSegment(ss));
    steps.push(BootStep::EnableInterrupts);
    proof {
        assert(steps@ =~= seq![
            BootStep::DisableInterrupts,
            BootStep::LoadGdt(GdtPointer { limit: 23, base: gdt_location }),
            BootStep::WriteCr0(cr0 | 1),
            BootStep::LoadDataSegments(FLAT_DATA_SELECTOR),
            BootStep::WriteCr0(cr0),
            BootStep::RestoreDataSegment(ds),
            BootStep::RestoreStackSegment(ss),
            BootStep::EnableInterrupts,
        ]);
    }
    ModeTransition { from: ProcessorMode::RealMode16, to: ProcessorMode::UnrealMode16, steps }
}

/// The transition into 32-bit protected mode, from real or unreal mode with
/// the flat descriptor table already loaded: mask interrupts for good, set
/// the processor-enable bit and leave it set, stage the next stage's entry
/// point on an aligned stack, far-jump through the flat code selector (the
/// pipeline caches the old code segment until a control transfer re-fetches
/// it), reload the remaining segments flat, and call the entry point, with
/// an endless halt as the only continuation if it returns. Interrupts are
/// never re-enabled: the next stage owns that decision.
pub fn enter_protected_mode(from: ProcessorMode, cr0: u32, entry_point: u32) -> (t: ModeTransition)
    requires
        from == ProcessorMode::RealMode16 || from == ProcessorMode::UnrealMode16,
    ensures
        t.from == from,
        t.to == ProcessorMode::ProtectedMode32,
        t.steps@ == seq![
            BootStep::DisableInterrupts,
            BootStep::WriteCr0(cr0 | 1),
            BootStep::AlignStack,
            BootStep::PushEntryPoint(entry_point),
            BootStep::FarJumpToSelector(FLAT_CODE_SELECTOR),
            BootStep::ReloadProtectedSegments(FLAT_DATA_SELECTOR),
            BootStep::CallPushedEntryPoint,
            BootStep::HaltLoop,
        ],
        spec_masked_throughout(t.steps@),
{
    let mut steps: Vec<BootStep> = Vec::new();
    steps.push(BootStep::DisableInterrupts);
    steps.push(BootStep::WriteCr0(cr0 | 1));
    steps.push(BootStep::AlignStack);
    steps.push(BootStep::PushEntryPoint(entry_point));
    steps.push(BootStep::FarJumpToSelector(FLAT_CODE_SELECTOR));
    steps.push(BootStep::ReloadProtectedSegments(FLAT_DATA_SELECTOR));
    steps.push(BootStep::CallPushedEntryPoint);
    steps.push(BootStep::HaltLoop);
    proof {
        assert(steps@ =~= seq![
            BootStep::DisableInterrupts,
            BootStep::WriteCr0(cr0 | 1),
            BootStep::AlignStack,
            BootStep::PushEntryPoint(entry_point),
            BootStep::FarJumpToSelector(FLAT_CODE_SELECTOR),
            BootStep::ReloadProtectedSegments(FLAT_DATA_SELECTOR),
            BootStep::CallPushedEntryPoint,
            BootStep::HaltLoop,
        ]);
    }
    ModeTransition { from, to: ProcessorMode::ProtectedMode32, steps }
}

} // verus!
