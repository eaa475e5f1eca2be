//! What the scheduler asks of the processor: which core it runs on, and how
//! to idle until the next interrupt without losing the interrupt mask.

use vstd::prelude::*;

verus! {

/// The initial local APIC id that the `cpuid` instruction reports, read with
/// `raw_cpuid`: `CpuId::new`, `get_feature_info`, `initial_local_apic_id`.
/// `None` where the processor offers no feature information. Nothing is
/// claimed of the value: it is whatever the processor says.
#[verifier::external_body]
fn initial_local_apic_id() -> (id: Option<u8>) {
    match raw_cpuid::CpuId::new().get_feature_info() {
        Some(info) => Some(info.initial_local_apic_id()),
        None => None,
    }
}

/// Identifies the core that runs this code by its initial local APIC id, or
/// `None` where the processor does not report one.
pub fn cpu_id() -> (id: Option<u8>) {
    initial_local_apic_id()
}

/// An operation on the interrupt mask of the core.
#[derive(Clone, Copy, Debug, PartialEq, Eq, Structural)]
pub enum InterruptOp {
    /// Enable interrupts.
    Enable,
    /// Disable interrupts.
    Disable,
    /// Enable interrupts and halt until one arrives, in one step.
    EnableAndHalt,
}

impl InterruptOp {
    /// Whether interrupts are enabled once the operation is done, on a core
    /// whose interrupts were enabled exactly if `enabled`.
    pub open spec fn enabled_after(self, enabled: bool) -> bool {
        match self {
            InterruptOp::Enable => true,
            InterruptOp::Disable => false,
            InterruptOp::EnableAndHalt => true,
        }
    }
}

/// Whether interrupts are enabled after the operations `ops`, done in order
/// on a core whose interrupts are enabled exactly if `enabled`.
pub open spec fn enabled_after_all(ops: Seq<InterruptOp>, enabled: bool) -> bool
    decreases ops.len(),
{
    if ops.len() == 0 {
        enabled
    } else {
        enabled_after_all(ops.drop_first(), ops[0].enabled_after(enabled))
    }
}

/// The operations that idle a core until the next interrupt: halt with
/// interrupts enabled, then disable them again if they were disabled before.
pub open spec fn idle_ops(enabled: bool) -> Seq<InterruptOp> {
    if enabled {
        seq![InterruptOp::EnableAndHalt]
    } else {
        seq![InterruptOp::EnableAndHalt, InterruptOp::Disable]
    }
}

/// The operations to do, in order, to idle until the next interrupt on a core
/// whose interrupts are enabled exactly if `enabled`.
pub fn wait_for_interrupt(enabled: bool) -> (ops: Vec<InterruptOp>)
    ensures
        ops@ == idle_ops(enabled),
{
    let mut ops: Vec<InterruptOp> = Vec::new();
    ops.push(InterruptOp::EnableAndHalt);
    if !enabled {
        ops.push(InterruptOp::Disable);
    }
    assert(ops@ =~= idle_ops(enabled));
    ops
}

/// Idling restores the interrupt mask: after the operations of
/// `wait_for_interrupt`, interrupts are enabled exactly if they were before.
/// In particular a core that idles with interrupts disabled has them
/// disabled again when it goes on.
pub proof fn lemma_idle_restores_mask(enabled: bool)
    ensures
        enabled_after_all(idle_ops(enabled), enabled) == enabled,
{
    reveal_with_fuel(enabled_after_all, 3);
    let ops = idle_ops(enabled);
    if !enabled {
        assert(ops.drop_first() =~= seq![InterruptOp::Disable]);
        assert(ops.drop_first().drop_first() =~= Seq::<InterruptOp>::empty());
    } else {
        assert(ops.drop_first() =~= Seq::<InterruptOp>::empty());
    }
}

} // verus!
