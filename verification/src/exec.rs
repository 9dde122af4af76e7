//! Tasks and task waking.
use vstd::prelude::*;
use vstd::string::StringExecFns;
use crate::guest::{append_digits, decimal_digits};

verus! {

/// A waker for a processor, which is to be woken with an interrupt when a
/// task for it becomes ready.
///
/// It holds the identifier of the processor; it offers no wake operation,
/// since sending the interrupt is not implemented.
pub struct ProcessorWaker(pub u64);

impl ProcessorWaker {
    /// A waker for the processor with the given identifier.
    pub fn new(processor: u64) -> (w: Self)
        ensures
            w.0 == processor,
    {
        ProcessorWaker(processor)
    }

    /// The identifier of the processor this waker targets.
    pub fn processor(&self) -> (p: u64)
        ensures
            p == self.0,
    {
        self.0
    }
}

/// The number the example task waits for.
pub fn async_number() -> (n: u32)
    ensures
        n == 42,
{
    42
}

/// The line the example task logs once it has its number.
pub fn async_number_message(number: u32) -> (s: String)
    ensures
        s@ == "async number: "@ + decimal_digits(number as nat),
{
    let mut s = String::from_str("async number: ");
    append_digits(&mut s, number);
    s
}

} // verus!
