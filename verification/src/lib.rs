//! The hardware-facing core of a small kernel: a text console on the
//! memory-mapped display, and the table that routes processor exceptions to
//! their handlers.

use vstd::prelude::*;
use crate::interrupts::idt::{DispatchTable, TableError, TableState, STACK_TABLE_SIZE};

pub mod interrupts;
pub mod vga;

verus! {

/// Brings the kernel's exception handling up. The memory subsystem has set
/// up the alternate stack by now and hands in its index, which the dispatch
/// table is built around before it is loaded.
pub fn init(double_fault_stack: u16) -> (result: Result<DispatchTable, TableError>)
    ensures
        double_fault_stack < STACK_TABLE_SIZE ==> result is Ok,
        double_fault_stack >= STACK_TABLE_SIZE ==> result == Err::<
            DispatchTable,
            TableError,
        >(TableError::StackIndexOutOfRange),
        result matches Ok(table) ==> table@ == (TableState {
            loaded: true,
            ..TableState::built(double_fault_stack)
        }) && table@.wf(),
{
    interrupts::idt::init(double_fault_stack)
}

} // verus!
