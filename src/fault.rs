//! The hard-fault path, the default handlers, and the core's run states.

use vstd::prelude::*;
use crate::memory::{le_word, Memory};
use crate::vectors::IrqHandler;

verus! {

/// Registers stacked (pushed onto the active stack) when an exception is taken.
#[derive(Clone, Copy, Debug, PartialEq, Eq)]
pub struct ExceptionFrame {
    pub r0: u32,
    pub r1: u32,
    pub r2: u32,
    pub r3: u32,
    pub r12: u32,
    pub lr: u32,
    pub pc: u32,
    pub xpsr: u32,
}

/// Size in bytes of a stacked exception frame.
pub const FRAME_BYTES: u32 = 32;

impl ExceptionFrame {
    /// The frame whose eight little-endian words start at `addr`.
    pub open spec fn stacked_at(m: &Memory, addr: int) -> ExceptionFrame {
        ExceptionFrame {
            r0: le_word(m, addr),
            r1: le_word(m, addr + 4),
            r2: le_word(m, addr + 8),
            r3: le_word(m, addr + 12),
            r12: le_word(m, addr + 16),
            lr: le_word(m, addr + 20),
            pc: le_word(m, addr + 24),
            xpsr: le_word(m, addr + 28),
        }
    }

    /// Reads the frame stacked at `addr`, if `stack` holds all of it.
    pub fn read(stack: &Memory, addr: u32) -> (r: Option<ExceptionFrame>)
        requires
            stack.wf(),
        ensures
            r == (if stack.holds(addr as int, FRAME_BYTES as int) {
                Some(ExceptionFrame::stacked_at(stack, addr as int))
            } else {
                None::<ExceptionFrame>
            }),
    {
        if addr < stack.base || ((addr - stack.base) as usize) > stack.bytes.len()
            || stack.bytes.len() - ((addr - stack.base) as usize) < FRAME_BYTES as usize {
            return None;
        }
        let r0 = stack.read_u32(addr).unwrap();
        let r1 = stack.read_u32(addr + 4).unwrap();
        let r2 = stack.read_u32(addr + 8).unwrap();
        let r3 = stack.read_u32(addr + 12).unwrap();
        let r12 = stack.read_u32(addr + 16).unwrap();
        let lr = stack.read_u32(addr + 20).unwrap();
        let pc = stack.read_u32(addr + 24).unwrap();
        let xpsr = stack.read_u32(addr + 28).unwrap();
        Some(ExceptionFrame { r0, r1, r2, r3, r12, lr, pc, xpsr })
    }
}

/// The exception-return value says that the process stack was active: its
/// bit 2 is set.
pub open spec fn uses_process_stack(exc_return: u32) -> bool {
    exc_return & 4 != 0
}

/// Picks the stack pointer that was active when the hard fault was taken,
/// from bit 2 of the exception-return value: the process stack pointer when
/// it is set, the main one when it is clear. Its value is the address of the
/// stacked frame, which goes to the hard-fault handler.
#[allow(non_snake_case)]
pub fn HardFaultTrampoline(exc_return: u32, msp: u32, psp: u32) -> (r: u32)
    ensures
        r == (if uses_process_stack(exc_return) {
            psp
        } else {
            msp
        }),
{
    if exc_return & 4 != 0 {
        psp
    } else {
        msp
    }
}

/// Run state of the core.
#[derive(Clone, Copy, Debug, PartialEq, Eq, Structural)]
pub enum CoreState {
    /// Between reset and the end of static-memory initialisation.
    PreInit,
    /// The application entry point has been reached.
    Running,
    /// A handler has stopped the core for good.
    Halted,
}

/// What happens to the core.
#[derive(Clone, Copy, Debug, PartialEq, Eq, Structural)]
pub enum Event {
    /// Static memory is initialised and the application is entered.
    InitDone,
    /// The peripheral interrupt of this line fires.
    Interrupt(u16),
    /// The processor takes a hard fault.
    HardFault,
}

/// Diagnostic hard-fault handler: it receives the stacked frame and halts.
pub fn hardfault_handler(_ef: &ExceptionFrame) -> (r: CoreState)
    ensures
        r == CoreState::Halted,
{
    CoreState::Halted
}

/// Handler of every interrupt without one of its own: it halts.
pub fn default_handler(_ex_num: i16) -> (r: CoreState)
    ensures
        r == CoreState::Halted,
{
    CoreState::Halted
}

/// Fallback default handler, taking no argument: it halts.
#[allow(non_snake_case)]
pub fn DefaultHandler_() -> (r: CoreState)
    ensures
        r == CoreState::Halted,
{
    CoreState::Halted
}

/// The state after `e` in state `s`, with the interrupt table `table`. A
/// halted core stays halted; a hard fault halts; an interrupt halts where the
/// default handler serves its line and otherwise returns to the interrupted
/// state; initialisation ending moves from pre-init to running.
pub open spec fn next_state(s: CoreState, e: Event, table: Seq<IrqHandler>) -> CoreState {
    if s == CoreState::Halted {
        CoreState::Halted
    } else {
        match e {
            Event::InitDone => CoreState::Running,
            Event::HardFault => CoreState::Halted,
            Event::Interrupt(line) => if table[line as int] == IrqHandler::Default {
                CoreState::Halted
            } else {
                s
            },
        }
    }
}

/// The handler that the hardware runs for interrupt `line`.
pub fn dispatch_interrupt(table: &Vec<IrqHandler>, line: u16) -> (r: IrqHandler)
    requires
        (line as int) < table@.len(),
    ensures
        r == table@[line as int],
{
    table[line as usize]
}

/// Advances the core by one event.
pub fn step(s: CoreState, e: Event, table: &Vec<IrqHandler>) -> (r: CoreState)
    requires
        forall|line: u16| e == Event::Interrupt(line) ==> (line as int) < table@.len(),
        table@.len() <= 0x8000,
    ensures
        r == next_state(s, e, table@),
{
    if s == CoreState::Halted {
        return CoreState::Halted;
    }
    match e {
        Event::InitDone => CoreState::Running,
        Event::HardFault => CoreState::Halted,
        Event::Interrupt(line) => match dispatch_interrupt(table, line) {
            IrqHandler::Default => default_handler(line as i16),
            IrqHandler::Override(_) => s,
        },
    }
}

/// A core that has halted never leaves the halted state, whatever happens.
pub proof fn lemma_halt_is_final(e: Event, table: Seq<IrqHandler>)
    ensures
        next_state(CoreState::Halted, e, table) == CoreState::Halted,
{
}

} // verus!
