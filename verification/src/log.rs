//! The kernel log: a slot that holds the port the log is written to (the
//! kernel installs its serial port there), filled at most once.
use vstd::prelude::*;

verus! {

/// Holds the port used as the kernel's standard output, once installed.
pub struct StdioSlot<P> {
    port: Option<P>,
}

impl<P> View for StdioSlot<P> {
    type V = Option<P>;

    /// The installed port, if any.
    closed spec fn view(&self) -> Option<P> {
        self.port
    }
}

impl<P> StdioSlot<P> {
    /// An empty slot: nothing is logged until a port is installed.
    pub fn new() -> (s: Self)
        ensures
            s@ is None,
    {
        StdioSlot { port: None }
    }

    /// Whether a port has been installed.
    pub fn is_installed(&self) -> (b: bool)
        ensures
            b == self@ is Some,
    {
        self.port.is_some()
    }

    /// The installed port, for writing log messages to; `None` while no port
    /// is installed, in which case messages are dropped.
    pub fn writer(&mut self) -> (w: Option<&mut P>)
        ensures
            w is Some <==> old(self)@ is Some,
            w is None ==> final(self)@ == old(self)@,
            w matches Some(p) ==> *p == old(self)@->0 && final(self)@ == Some(*final(p)),
    {
        self.port.as_mut()
    }
}

/// The result of installing `port` into a slot that holds `installed`:
/// the slot afterwards, and what the call returns.
pub open spec fn install_outcome<P>(installed: Option<P>, port: P) -> (Option<P>, Result<(), P>) {
    match installed {
        None => (Some(port), Ok(())),
        Some(p) => (Some(p), Err(port)),
    }
}

/// Installs a port (the serial port, in the kernel) as the stdio writer.
///
/// Succeeds only on an empty slot; once a port is installed, a later call
/// hands its port back in `Err` and leaves the slot as it was.
pub fn install_stdio_port<P>(slot: &mut StdioSlot<P>, port: P) -> (r: Result<(), P>)
    ensures
        (final(slot)@, r) == install_outcome(old(slot)@, port),
{
    if slot.port.is_some() {
        Err(port)
    } else {
        slot.port = Some(port);
        Ok(())
    }
}

/// The first installed port stays installed: after a successful install,
/// every later install is refused with its own port handed back, and the
/// slot keeps the first port.
pub proof fn lemma_install_once<P>(empty: Option<P>, first: P, second: P)
    requires
        empty is None,
    ensures
        install_outcome(empty, first) == (Some(first), Ok::<(), P>(())),
        install_outcome(install_outcome(empty, first).0, second) == (
            Some(first),
            Err::<(), P>(second),
        ),
{
}

/// Installing is idempotent on a filled slot: a refused install changes nothing.
pub proof fn lemma_refused_install_keeps_slot<P>(installed: Option<P>, port: P)
    requires
        installed is Some,
    ensures
        install_outcome(installed, port).0 == installed,
        install_outcome(installed, port).1 == Err::<(), P>(port),
{
}

} // verus!
