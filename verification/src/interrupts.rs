//! Interrupt routing: which vector reaches which handler, what each handler
//! does when it runs, and the vectors the local APIC is configured with.
use vstd::prelude::*;
use vstd::string::StringExecFns;
use x86_64::structures::idt::InterruptDescriptorTable;
use crate::processor::{after_load, load_table, ProcessorIdt};

verus! {

#[verifier::external_type_specification]
#[verifier::external_body]
pub struct ExInterruptDescriptorTable(InterruptDescriptorTable);

/// Vector of the breakpoint exception (`int3`).
pub const BREAKPOINT_VECTOR: usize = 3;

/// Vector of the double-fault exception.
pub const DOUBLE_FAULT_VECTOR: usize = 8;

/// The interrupts raised by the local APIC, each on a vector of its own.
#[derive(Clone, Copy, Debug, PartialEq, Eq, Structural)]
pub enum InterruptIndex {
    Timer,
    Error,
    Spurious,
}

/// The handlers that the default interrupt table installs.
#[derive(Clone, Copy, Debug, PartialEq, Eq, Structural)]
pub enum Handler {
    DoubleFault,
    Breakpoint,
    Timer,
    Error,
    Spurious,
}

impl InterruptIndex {
    /// The vector number of this interrupt.
    pub open spec fn vector_of(self) -> usize {
        match self {
            InterruptIndex::Timer => 32,
            InterruptIndex::Error => 33,
            InterruptIndex::Spurious => 34,
        }
    }

    /// The handler that serves this interrupt.
    pub open spec fn handler_of(self) -> Handler {
        match self {
            InterruptIndex::Timer => Handler::Timer,
            InterruptIndex::Error => Handler::Error,
            InterruptIndex::Spurious => Handler::Spurious,
        }
    }

    /// The vector number of this interrupt, as the table and the APIC index it.
    pub fn as_usize(self) -> (v: usize)
        ensures
            v == self.vector_of(),
    {
        match self {
            InterruptIndex::Timer => 32,
            InterruptIndex::Error => 33,
            InterruptIndex::Spurious => 34,
        }
    }

    /// The local APIC interrupt raised on `vector`, if any.
    pub fn from_vector(vector: usize) -> (r: Option<InterruptIndex>)
        ensures
            r == index_for_vector(vector as int),
    {
        if vector == 32 {
            Some(InterruptIndex::Timer)
        } else if vector == 33 {
            Some(InterruptIndex::Error)
        } else if vector == 34 {
            Some(InterruptIndex::Spurious)
        } else {
            None
        }
    }
}

/// The local APIC interrupt whose vector is `vector`.
pub open spec fn index_for_vector(vector: int) -> Option<InterruptIndex> {
    if vector == InterruptIndex::Timer.vector_of() {
        Some(InterruptIndex::Timer)
    } else if vector == InterruptIndex::Error.vector_of() {
        Some(InterruptIndex::Error)
    } else if vector == InterruptIndex::Spurious.vector_of() {
        Some(InterruptIndex::Spurious)
    } else {
        None
    }
}

/// The handler the default interrupt table holds at `vector`; `None` where
/// the entry is left missing.
pub open spec fn table_handler(vector: int) -> Option<Handler> {
    if vector == DOUBLE_FAULT_VECTOR {
        Some(Handler::DoubleFault)
    } else if vector == BREAKPOINT_VECTOR {
        Some(Handler::Breakpoint)
    } else {
        match index_for_vector(vector) {
            Some(idx) => Some(idx.handler_of()),
            None => None,
        }
    }
}

/// The vectors at which `InterruptDescriptorTable`'s `IndexMut<usize>`
/// returns an entry instead of panicking: the exceptions without an error
/// code, and every vector from 32 to 255.
pub open spec fn idt_index_accepts(i: int) -> bool {
    ||| 0 <= i <= 7
    ||| i == 9
    ||| i == 16
    ||| i == 19
    ||| i == 20
    ||| i == 28
    ||| 32 <= i <= 255
}

/// The handler that the default interrupt table installs at `vector`.
pub fn handler_for_vector(vector: usize) -> (r: Option<Handler>)
    ensures
        r == table_handler(vector as int),
{
    if vector == DOUBLE_FAULT_VECTOR {
        Some(Handler::DoubleFault)
    } else if vector == BREAKPOINT_VECTOR {
        Some(Handler::Breakpoint)
    } else {
        match InterruptIndex::from_vector(vector) {
            Some(InterruptIndex::Timer) => Some(Handler::Timer),
            Some(InterruptIndex::Error) => Some(Handler::Error),
            Some(InterruptIndex::Spurious) => Some(Handler::Spurious),
            None => None,
        }
    }
}

/// The two interrupt tables a kernel of this project may load.
#[derive(Clone, Copy, Debug, PartialEq, Eq, Structural)]
pub enum TableLayout {
    /// Only the exception handlers: double fault and breakpoint.
    ExceptionsOnly,
    /// The exception handlers and the three local APIC interrupts.
    WithApic,
}

/// The handler that the table of `layout` holds at `vector`; `None` where
/// the entry is left missing (non-present).
pub open spec fn layout_handler(layout: TableLayout, vector: int) -> Option<Handler> {
    match layout {
        TableLayout::WithApic => table_handler(vector),
        TableLayout::ExceptionsOnly => if vector == DOUBLE_FAULT_VECTOR {
            Some(Handler::DoubleFault)
        } else if vector == BREAKPOINT_VECTOR {
            Some(Handler::Breakpoint)
        } else {
            None
        },
    }
}

/// One entry of an interrupt table: the handler set at a vector.
#[derive(Clone, Copy, Debug, PartialEq, Eq, Structural)]
pub struct Route {
    pub vector: usize,
    pub handler: Handler,
}

/// The entries of the table of `layout`, in the order they are set: every
/// vector this list does not name is left missing.
pub open spec fn layout_routes(layout: TableLayout) -> Seq<Route> {
    let exceptions = seq![
        Route { vector: DOUBLE_FAULT_VECTOR, handler: Handler::DoubleFault },
        Route { vector: BREAKPOINT_VECTOR, handler: Handler::Breakpoint },
    ];
    match layout {
        TableLayout::ExceptionsOnly => exceptions,
        TableLayout::WithApic => exceptions + seq![
            Route { vector: 32, handler: Handler::Timer },
            Route { vector: 33, handler: Handler::Error },
            Route { vector: 34, handler: Handler::Spurious },
        ],
    }
}

/// The entries to set when building the table of `layout`. The table is
/// built from this list alone: a vector holds a handler exactly when the
/// list names it, with that handler, and no vector is named twice.
pub fn table_routes(layout: TableLayout) -> (routes: Vec<Route>)
    ensures
        routes@ == layout_routes(layout),
        forall|i: int|
            0 <= i < routes.len() ==> layout_handler(layout, #[trigger] routes@[i].vector as int)
                == Some(routes@[i].handler),
        forall|v: int|
            #[trigger] layout_handler(layout, v) is Some ==> exists|i: int|
                0 <= i < routes.len() && #[trigger] routes@[i].vector == v,
        forall|i: int, j: int|
            0 <= i < j < routes.len() ==> routes@[i].vector != routes@[j].vector,
{
    let mut routes: Vec<Route> = Vec::new();
    routes.push(Route { vector: DOUBLE_FAULT_VECTOR, handler: Handler::DoubleFault });
    routes.push(Route { vector: BREAKPOINT_VECTOR, handler: Handler::Breakpoint });
    match layout {
        TableLayout::ExceptionsOnly => {},
        TableLayout::WithApic => {
            routes.push(Route { vector: InterruptIndex::Timer.as_usize(), handler: Handler::Timer });
            routes.push(Route { vector: InterruptIndex::Error.as_usize(), handler: Handler::Error });
            routes.push(
                Route { vector: InterruptIndex::Spurious.as_usize(), handler: Handler::Spurious },
            );
        },
    }
    proof {
        assert(routes@ =~= layout_routes(layout));
        assert forall|v: int| #[trigger] layout_handler(layout, v) is Some implies exists|i: int|
            0 <= i < routes.len() && #[trigger] routes@[i].vector == v by {
            if v == 8 {
                assert(routes@[0].vector == v);
            } else if v == 3 {
                assert(routes@[1].vector == v);
            } else if v == 32 {
                assert(routes@[2].vector == v);
            } else if v == 33 {
                assert(routes@[3].vector == v);
            } else {
                assert(routes@[4].vector == v);
            }
        }
    }
    routes
}

/// Every vector a table names is one at which the interrupt table's
/// entries can be set: the exceptions are set through their own fields,
/// and the APIC vectors are accepted by `IndexMut<usize>`.
pub proof fn lemma_routes_settable(layout: TableLayout, i: int)
    requires
        0 <= i < layout_routes(layout).len(),
    ensures
        ({
            let r = layout_routes(layout)[i];
            ||| r.vector == DOUBLE_FAULT_VECTOR && r.handler == Handler::DoubleFault
            ||| r.vector == BREAKPOINT_VECTOR && r.handler == Handler::Breakpoint
            ||| 32 <= r.vector <= 255 && idt_index_accepts(r.vector as int) && is_apic_handler(
                r.handler,
            )
        }),
{
}

/// The exceptions-only table is the full table without its APIC entries.
pub proof fn lemma_exceptions_only_is_prefix(vector: int)
    ensures
        layout_handler(TableLayout::ExceptionsOnly, vector) is Some ==> layout_handler(
            TableLayout::ExceptionsOnly,
            vector,
        ) == layout_handler(TableLayout::WithApic, vector),
        layout_handler(TableLayout::ExceptionsOnly, vector) is None && layout_handler(
            TableLayout::WithApic,
            vector,
        ) is Some ==> index_for_vector(vector) is Some,
{
}

/// What a handler does when its interrupt arrives.
pub struct InterruptResponse {
    /// The first line of the message written to the kernel log (or, for a
    /// diverging handler, of the panic message); the interrupt stack frame
    /// follows it on the next line.
    pub header: String,
    /// The message ends with a line holding the error code the CPU pushed.
    pub reports_error_code: bool,
    /// The handler signals end-of-interrupt to the local APIC.
    pub ends_interrupt: bool,
    /// The handler never returns: it panics.
    pub diverges: bool,
}

/// The first line of the message a handler writes.
pub open spec fn header_of(handler: Handler) -> Seq<char> {
    match handler {
        Handler::DoubleFault => "EXCEPTION: DOUBLE FAULT"@,
        Handler::Breakpoint => "EXCEPTION: BREAKPOINT"@,
        Handler::Timer => "TIMER:"@,
        Handler::Error => "ERROR:"@,
        Handler::Spurious => "SPURIOUS:"@,
    }
}

/// The handlers that serve local APIC interrupts, and so must acknowledge them.
pub open spec fn is_apic_handler(handler: Handler) -> bool {
    handler == Handler::Timer || handler == Handler::Error || handler == Handler::Spurious
}

/// The behaviour of `handler`.
pub fn respond(handler: Handler) -> (r: InterruptResponse)
    ensures
        r.header@ == header_of(handler),
        r.reports_error_code == (handler == Handler::DoubleFault),
        r.ends_interrupt == is_apic_handler(handler),
        r.diverges == (handler == Handler::DoubleFault),
{
    match handler {
        Handler::DoubleFault => InterruptResponse {
            header: String::from_str("EXCEPTION: DOUBLE FAULT"),
            reports_error_code: true,
            ends_interrupt: false,
            diverges: true,
        },
        Handler::Breakpoint => InterruptResponse {
            header: String::from_str("EXCEPTION: BREAKPOINT"),
            reports_error_code: false,
            ends_interrupt: false,
            diverges: false,
        },
        Handler::Timer => InterruptResponse {
            header: String::from_str("TIMER:"),
            reports_error_code: false,
            ends_interrupt: true,
            diverges: false,
        },
        Handler::Error => InterruptResponse {
            header: String::from_str("ERROR:"),
            reports_error_code: false,
            ends_interrupt: true,
            diverges: false,
        },
        Handler::Spurious => InterruptResponse {
            header: String::from_str("SPURIOUS:"),
            reports_error_code: false,
            ends_interrupt: true,
            diverges: false,
        },
    }
}

/// The settings the local APIC is built with.
pub struct LapicConfig {
    pub timer_vector: usize,
    pub error_vector: usize,
    pub spurious_vector: usize,
    /// Base address of the xAPIC register page.
    pub xapic_base: u64,
}

/// The local APIC settings: each APIC interrupt on its own vector, and the
/// given xAPIC base.
pub fn lapic_config(xapic_base: u64) -> (c: LapicConfig)
    ensures
        c.timer_vector == InterruptIndex::Timer.vector_of(),
        c.error_vector == InterruptIndex::Error.vector_of(),
        c.spurious_vector == InterruptIndex::Spurious.vector_of(),
        c.xapic_base == xapic_base,
{
    LapicConfig {
        timer_vector: InterruptIndex::Timer.as_usize(),
        error_vector: InterruptIndex::Error.as_usize(),
        spurious_vector: InterruptIndex::Spurious.as_usize(),
        xapic_base,
    }
}

/// Installs `table` as the interrupt table of the current processor:
/// afterwards the processor's IDT register designates `table`, whatever it
/// designated before, so installing twice is the same as installing once.
///
/// The kernel builds `table` from `table_routes`; the handlers the table
/// holds are opaque here.
pub fn install_interrupt_table(table: &'static InterruptDescriptorTable, cpu: &mut ProcessorIdt)
    ensures
        final(cpu).loaded() == after_load(old(cpu).loaded(), *table),
        final(cpu).loaded() == Some(*table),
{
    load_table(table, cpu);
}

/// Every local APIC interrupt reaches, through the default table, the
/// handler made for it, and that handler acknowledges it to the APIC.
pub proof fn lemma_apic_interrupts_routed(idx: InterruptIndex)
    ensures
        table_handler(idx.vector_of() as int) == Some(idx.handler_of()),
        is_apic_handler(idx.handler_of()),
        index_for_vector(idx.vector_of() as int) == Some(idx),
{
}

/// A vector maps back to a local APIC interrupt only when it is that
/// interrupt's vector.
pub proof fn lemma_index_for_vector_inverse(vector: int, idx: InterruptIndex)
    requires
        index_for_vector(vector) == Some(idx),
    ensures
        idx.vector_of() == vector,
{
}

/// The local APIC vectors are distinct, lie in the range of user interrupts,
/// and are indices at which the interrupt table can be set without a panic.
pub proof fn lemma_apic_vectors_valid(a: InterruptIndex, b: InterruptIndex)
    ensures
        a != b ==> a.vector_of() != b.vector_of(),
        32 <= a.vector_of() <= 255,
        idt_index_accepts(a.vector_of() as int),
{
}

/// Exceptions are not acknowledged to the APIC; only the double fault
/// handler diverges.
pub proof fn lemma_exceptions_not_acknowledged(handler: Handler)
    ensures
        handler == Handler::DoubleFault || handler == Handler::Breakpoint
            ==> !is_apic_handler(handler),
        table_handler(DOUBLE_FAULT_VECTOR as int) == Some(Handler::DoubleFault),
        table_handler(BREAKPOINT_VECTOR as int) == Some(Handler::Breakpoint),
{
}

/// The vector the local APIC, configured as `c`, raises for `idx`.
pub open spec fn configured_vector(c: LapicConfig, idx: InterruptIndex) -> usize {
    match idx {
        InterruptIndex::Timer => c.timer_vector,
        InterruptIndex::Error => c.error_vector,
        InterruptIndex::Spurious => c.spurious_vector,
    }
}

/// With the local APIC configured as `lapic_config` sets it, the entries of
/// the kernel's table whose handlers acknowledge the APIC sit exactly at the
/// vectors the APIC raises, each with the handler for that interrupt, and
/// none of them is a CPU exception vector (0 to 31).
pub proof fn lemma_acknowledged_routes_match_apic(c: LapicConfig)
    requires
        c.timer_vector == InterruptIndex::Timer.vector_of(),
        c.error_vector == InterruptIndex::Error.vector_of(),
        c.spurious_vector == InterruptIndex::Spurious.vector_of(),
    ensures
        forall|i: int|
            0 <= i < layout_routes(TableLayout::WithApic).len() && is_apic_handler(
                #[trigger] layout_routes(TableLayout::WithApic)[i].handler,
            ) ==> {
                let r = layout_routes(TableLayout::WithApic)[i];
                &&& r.vector >= 32
                &&& exists|idx: InterruptIndex|
                    #[trigger] idx.handler_of() == r.handler && configured_vector(c, idx)
                        == r.vector
            },
        forall|idx: InterruptIndex|
            #![trigger configured_vector(c, idx)]
            exists|i: int|
                0 <= i < layout_routes(TableLayout::WithApic).len() && #[trigger] layout_routes(
                    TableLayout::WithApic,
                )[i] == (Route { vector: configured_vector(c, idx), handler: idx.handler_of() }),
{
    let routes = layout_routes(TableLayout::WithApic);
    assert forall|i: int|
        0 <= i < routes.len() && is_apic_handler(#[trigger] routes[i].handler) implies {
        let r = routes[i];
        &&& r.vector >= 32
        &&& exists|idx: InterruptIndex|
            #[trigger] idx.handler_of() == r.handler && configured_vector(c, idx) == r.vector
    } by {
        if i == 2 {
            assert(InterruptIndex::Timer.handler_of() == routes[i].handler);
        } else if i == 3 {
            assert(InterruptIndex::Error.handler_of() == routes[i].handler);
        } else {
            assert(InterruptIndex::Spurious.handler_of() == routes[i].handler);
        }
    }
    assert forall|idx: InterruptIndex|
        #![trigger configured_vector(c, idx)]
        exists|i: int|
            0 <= i < routes.len() && #[trigger] routes[i] == (Route {
                vector: configured_vector(c, idx),
                handler: idx.handler_of(),
            }) by {
        match idx {
            InterruptIndex::Timer => assert(routes[2] == (Route {
                vector: configured_vector(c, idx),
                handler: idx.handler_of(),
            })),
            InterruptIndex::Error => assert(routes[3] == (Route {
                vector: configured_vector(c, idx),
                handler: idx.handler_of(),
            })),
            InterruptIndex::Spurious => assert(routes[4] == (Route {
                vector: configured_vector(c, idx),
                handler: idx.handler_of(),
            })),
        }
    }
}

} // verus!
