//! The processor's interrupt descriptor table register, as the kernel sees it.
use vstd::prelude::*;
use x86_64::structures::idt::InterruptDescriptorTable;

verus! {

/// Stands for the IDT register of the processor the kernel runs on.
///
/// It records the table the kernel last loaded into the register; a fresh
/// handle records none (the register still holds the firmware's table).
/// Only `load_table` changes what it records.
pub struct ProcessorIdt {
    loaded: Ghost<Option<InterruptDescriptorTable>>,
}

impl ProcessorIdt {
    /// The table the kernel last loaded into the register, if any.
    pub closed spec fn loaded(&self) -> Option<InterruptDescriptorTable> {
        self.loaded@
    }

    /// The register at boot, before the kernel has loaded a table. Make one
    /// handle per processor, before any table is loaded, and load tables
    /// through it alone: a handle made later would record no table while the
    /// register holds one.
    pub fn at_boot() -> (cpu: Self)
        ensures
            cpu.loaded() is None,
    {
        ProcessorIdt { loaded: Ghost(None) }
    }
}

/// The table the register designates after loading `table`, whatever it
/// designated before.
pub open spec fn after_load(
    before: Option<InterruptDescriptorTable>,
    table: InterruptDescriptorTable,
) -> Option<InterruptDescriptorTable> {
    Some(table)
}

/// Loads `table` into the processor's IDT register.
///
/// Calls `x86_64::structures::idt::InterruptDescriptorTable::load`, which
/// executes `lidt` with the table's address and the table's size less one
/// as limit: afterwards the register designates `table`. Since `table` is
/// `'static` and shared, it is never moved, changed or freed while loaded.
/// `lidt` is a privileged instruction: the kernel runs it in ring 0.
#[verifier::external_body]
pub(crate) fn load_table(table: &'static InterruptDescriptorTable, cpu: &mut ProcessorIdt)
    ensures
        final(cpu).loaded() == after_load(old(cpu).loaded(), *table),
{
    table.load();
}

/// Loading the same table again leaves the register as one load did.
pub proof fn lemma_load_idempotent(
    before: Option<InterruptDescriptorTable>,
    table: InterruptDescriptorTable,
)
    ensures
        after_load(after_load(before, table), table) == after_load(before, table),
        after_load(before, table) == Some(table),
{
}

} // verus!
