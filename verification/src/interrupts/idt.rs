//! The exception dispatch table: which handler each exception vector runs,
//! and on which stack.

use vstd::prelude::*;
use vstd::string::*;
use crate::vga::{decimal, print, print_decimal, Writer};
use crate::vga::screen::lemma_write_bytes_concat;

verus! {

/// Vectors in the table.
pub const ENTRY_COUNT: usize = 256;

/// The vector of the breakpoint exception.
pub const BREAKPOINT_VECTOR: u8 = 3;

/// The vector of the double-fault exception.
pub const DOUBLE_FAULT_VECTOR: u8 = 8;

/// Slots in the processor's interrupt stack table: a stack index is below
/// this.
pub const STACK_TABLE_SIZE: u16 = 7;

/// The handlers that this kernel installs.
#[derive(Copy, Clone, Debug, PartialEq, Eq, Structural)]
pub enum Handler {
    Breakpoint,
    DoubleFault,
}

/// What the interrupted code does once a handler has finished.
#[derive(Copy, Clone, Debug, PartialEq, Eq, Structural)]
pub enum Disposition {
    /// Execution goes on after the instruction that trapped.
    Resume,
    /// The processor is halted for good.
    Halt,
}

/// One vector of the table.
#[derive(Copy, Clone, Debug, PartialEq, Eq, Structural)]
pub struct Entry {
    /// The handler the vector runs, or `None` while it is unhandled.
    pub handler: Option<Handler>,
    /// The alternate stack the handler runs on, or `None` for the stack of
    /// the interrupted code.
    pub stack_index: Option<u16>,
}

impl Entry {
    /// The entry of an unhandled vector.
    pub open spec fn missing() -> Entry {
        Entry { handler: None, stack_index: None }
    }

    /// A stack index, where there is one, names a slot of the stack table.
    pub open spec fn wf(self) -> bool {
        self.stack_index matches Some(index) ==> index < STACK_TABLE_SIZE
    }
}

/// Why a change to the table was refused.
#[derive(Copy, Clone, Debug, PartialEq, Eq, Structural)]
pub enum TableError {
    /// The table is active in the processor and can no longer change.
    Loaded,
    /// The stack index names no slot of the interrupt stack table.
    StackIndexOutOfRange,
}

/// What a dispatch table holds at one instant.
pub struct TableState {
    /// The entries, by vector.
    pub entries: Seq<Entry>,
    /// Whether the table has been handed to the processor.
    pub loaded: bool,
}

impl TableState {
    /// The table has one well-formed entry for each vector.
    pub open spec fn wf(self) -> bool {
        &&& self.entries.len() == ENTRY_COUNT
        &&& forall|v: int| 0 <= v < ENTRY_COUNT ==> (#[trigger] self.entries[v]).wf()
    }

    /// The table in which every vector is unhandled.
    pub open spec fn empty() -> TableState {
        TableState { entries: Seq::new(ENTRY_COUNT as nat, |v: int| Entry::missing()), loaded: false }
    }

    /// The table with a handler installed at a vector, on the stack of the
    /// interrupted code.
    pub open spec fn with_handler(self, vector: u8, handler: Handler) -> TableState {
        TableState {
            entries: self.entries.update(
                vector as int,
                Entry { handler: Some(handler), stack_index: None },
            ),
            ..self
        }
    }

    /// The table with the handler of a vector moved to an alternate stack.
    pub open spec fn with_stack_index(self, vector: u8, index: u16) -> TableState {
        TableState {
            entries: self.entries.update(
                vector as int,
                Entry { stack_index: Some(index), ..self.entries[vector as int] },
            ),
            ..self
        }
    }

    /// The table that this kernel runs with: the breakpoint handler on the
    /// current stack, the double-fault handler on the alternate stack given,
    /// and every other vector unhandled.
    pub open spec fn built(double_fault_stack: u16) -> TableState {
        TableState::empty().with_handler(BREAKPOINT_VECTOR, Handler::Breakpoint).with_handler(
            DOUBLE_FAULT_VECTOR,
            Handler::DoubleFault,
        ).with_stack_index(DOUBLE_FAULT_VECTOR, double_fault_stack)
    }
}

/// The table that this kernel runs with handles the breakpoint on the
/// current stack and the double fault on the alternate stack; every other
/// vector is unhandled, and the table is not loaded yet.
pub proof fn lemma_built_table(double_fault_stack: u16)
    requires
        double_fault_stack < STACK_TABLE_SIZE,
    ensures
        TableState::built(double_fault_stack).wf(),
        !TableState::built(double_fault_stack).loaded,
        TableState::built(double_fault_stack).entries[BREAKPOINT_VECTOR as int] == (Entry {
            handler: Some(Handler::Breakpoint),
            stack_index: None,
        }),
        TableState::built(double_fault_stack).entries[DOUBLE_FAULT_VECTOR as int] == (Entry {
            handler: Some(Handler::DoubleFault),
            stack_index: Some(double_fault_stack),
        }),
        forall|v: int|
            0 <= v < ENTRY_COUNT && v != BREAKPOINT_VECTOR && v != DOUBLE_FAULT_VECTOR
                ==> #[trigger] TableState::built(double_fault_stack).entries[v] == Entry::missing(),
{
}

/// The exception dispatch table.
pub struct DispatchTable {
    entries: [Entry; ENTRY_COUNT],
    loaded: bool,
}

impl View for DispatchTable {
    type V = TableState;

    closed spec fn view(&self) -> TableState {
        TableState { entries: self.entries@, loaded: self.loaded }
    }
}

impl DispatchTable {
    #[verifier::type_invariant]
    spec fn entries_well_formed(&self) -> bool {
        forall|v: int| 0 <= v < ENTRY_COUNT ==> (#[trigger] self.entries@[v]).wf()
    }

    /// A table in which every vector is unhandled, not yet loaded.
    pub fn new() -> (table: DispatchTable)
        ensures
            table@ == TableState::empty(),
            table@.wf(),
    {
        let table = DispatchTable {
            entries: [Entry { handler: None, stack_index: None }; ENTRY_COUNT],
            loaded: false,
        };
        assert(table@.entries =~= TableState::empty().entries);
        table
    }

    /// Installs a handler at a vector, to run on the stack of the interrupted
    /// code. A loaded table refuses the change and stays as it is.
    pub fn set_handler_fn(&mut self, vector: u8, handler: Handler) -> (result: Result<
        (),
        TableError,
    >)
        ensures
            old(self)@.loaded ==> result == Err::<(), TableError>(TableError::Loaded)
                && final(self)@ == old(self)@,
            !old(self)@.loaded ==> result is Ok && final(self)@ == old(self)@.with_handler(
                vector,
                handler,
            ),
            final(self)@.wf(),
    {
        proof {
            use_type_invariant(&*self);
        }
        if self.loaded {
            return Err(TableError::Loaded);
        }
        self.entries[vector as usize] = Entry { handler: Some(handler), stack_index: None };
        Ok(())
    }

    /// Moves the handler of a vector to an alternate stack. A loaded table
    /// refuses the change, and so does an index outside the interrupt stack
    /// table; the table then stays as it is.
    pub fn set_stack_index(&mut self, vector: u8, index: u16) -> (result: Result<(), TableError>)
        ensures
            old(self)@.loaded ==> result == Err::<(), TableError>(TableError::Loaded),
            !old(self)@.loaded && index >= STACK_TABLE_SIZE ==> result == Err::<(), TableError>(
                TableError::StackIndexOutOfRange,
            ),
            !old(self)@.loaded && index < STACK_TABLE_SIZE ==> result is Ok,
            result is Ok ==> final(self)@ == old(self)@.with_stack_index(vector, index),
            result is Err ==> final(self)@ == old(self)@,
            final(self)@.wf(),
    {
        proof {
            use_type_invariant(&*self);
        }
        if self.loaded {
            return Err(TableError::Loaded);
        }
        if index >= STACK_TABLE_SIZE {
            return Err(TableError::StackIndexOutOfRange);
        }
        let entry = self.entries[vector as usize];
        self.entries[vector as usize] = Entry { handler: entry.handler, stack_index: Some(index) };
        Ok(())
    }

    /// Marks the table as active in the processor. From then on it keeps its
    /// contents: no function changes a loaded table or unloads it.
    pub fn load(&mut self)
        ensures
            final(self)@ == (TableState { loaded: true, ..old(self)@ }),
            final(self)@.wf(),
    {
        proof {
            use_type_invariant(&*self);
        }
        self.loaded = true;
    }

    /// Whether the table has been loaded.
    pub fn is_loaded(&self) -> (loaded: bool)
        ensures
            loaded == self@.loaded,
    {
        self.loaded
    }

    /// The entry of a vector.
    pub fn entry(&self, vector: u8) -> (entry: Entry)
        ensures
            entry == self@.entries[vector as int],
            entry.wf(),
    {
        proof {
            use_type_invariant(self);
        }
        self.entries[vector as usize]
    }
}

/// Builds the table that this kernel runs with. The double-fault handler
/// gets the alternate stack given, so that it runs even where the stack of
/// the interrupted code is used up; an index outside the interrupt stack table
/// is refused.
pub fn build(double_fault_stack: u16) -> (result: Result<DispatchTable, TableError>)
    ensures
        double_fault_stack < STACK_TABLE_SIZE ==> result is Ok,
        double_fault_stack >= STACK_TABLE_SIZE ==> result == Err::<
            DispatchTable,
            TableError,
        >(TableError::StackIndexOutOfRange),
        result matches Ok(table) ==> table@ == TableState::built(double_fault_stack) && table@.wf(),
{
    let mut idt = DispatchTable::new();
    let _ = idt.set_handler_fn(BREAKPOINT_VECTOR, Handler::Breakpoint);
    let _ = idt.set_handler_fn(DOUBLE_FAULT_VECTOR, Handler::DoubleFault);
    match idt.set_stack_index(DOUBLE_FAULT_VECTOR, double_fault_stack) {
        Ok(()) => Ok(idt),
        Err(e) => Err(e),
    }
}

/// Builds the table and marks it loaded: the state in which exceptions are
/// dispatched through it.
pub fn init(double_fault_stack: u16) -> (result: Result<DispatchTable, TableError>)
    ensures
        double_fault_stack < STACK_TABLE_SIZE ==> result is Ok,
        double_fault_stack >= STACK_TABLE_SIZE ==> result == Err::<
            DispatchTable,
            TableError,
        >(TableError::StackIndexOutOfRange),
        result matches Ok(table) ==> table@ == (TableState {
            loaded: true,
            ..TableState::built(double_fault_stack)
        }) && table@.wf(),
{
    match build(double_fault_stack) {
        Ok(mut idt) => {
            idt.load();
            Ok(idt)
        },
        Err(e) => Err(e),
    }
}

/// What the breakpoint handler prints before the stack frame.
pub open spec fn breakpoint_report(stack_frame: Seq<u8>) -> Seq<u8> {
    "EXCEPTION: BREAKPOINT\n".spec_bytes() + stack_frame + "\n".spec_bytes()
}

/// What the double-fault handler prints.
pub open spec fn double_fault_report(stack_frame: Seq<u8>, err_code: u64) -> Seq<u8> {
    "EXCEPTION: DOUBLE FAULT\n".spec_bytes() + stack_frame + "\n".spec_bytes()
        + "err_code: ".spec_bytes() + decimal(err_code as nat) + "\n".spec_bytes()
}

/// The breakpoint handler: reports the exception with the rendered stack
/// frame on the console, and lets execution resume.
pub fn breakpoint_handler(console: &mut Writer, stack_frame: &str) -> (next: Disposition)
    ensures
        final(console)@ == old(console)@.write_bytes(breakpoint_report(stack_frame.spec_bytes())),
        final(console)@.wf(),
        next == Disposition::Resume,
{
    print(console, "EXCEPTION: BREAKPOINT\n");
    print(console, stack_frame);
    print(console, "\n");
    proof {
        let head = "EXCEPTION: BREAKPOINT\n".spec_bytes();
        let frame = stack_frame.spec_bytes();
        lemma_write_bytes_concat(old(console)@, head, frame);
        lemma_write_bytes_concat(old(console)@, head + frame, "\n".spec_bytes());
    }
    Disposition::Resume
}

/// The double-fault handler: reports the exception with the rendered stack
/// frame and the error code on the console; the processor is then to be
/// halted.
pub fn double_fault_handler(console: &mut Writer, stack_frame: &str, err_code: u64) -> (next:
    Disposition)
    ensures
        final(console)@ == old(console)@.write_bytes(
            double_fault_report(stack_frame.spec_bytes(), err_code),
        ),
        final(console)@.wf(),
        next == Disposition::Halt,
{
    print(console, "EXCEPTION: DOUBLE FAULT\n");
    print(console, stack_frame);
    print(console, "\n");
    print(console, "err_code: ");
    print_decimal(console, err_code);
    print(console, "\n");
    proof {
        let before = old(console)@;
        let head = "EXCEPTION: DOUBLE FAULT\n".spec_bytes();
        let frame = stack_frame.spec_bytes();
        let end = "\n".spec_bytes();
        let label = "err_code: ".spec_bytes();
        let digits = decimal(err_code as nat);
        lemma_write_bytes_concat(before, head, frame);
        lemma_write_bytes_concat(before, head + frame, end);
        lemma_write_bytes_concat(before, head + frame + end, label);
        lemma_write_bytes_concat(before, head + frame + end + label, digits);
        lemma_write_bytes_concat(before, head + frame + end + label + digits, end);
    }
    Disposition::Halt
}

} // verus!
