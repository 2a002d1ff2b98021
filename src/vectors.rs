//! The exception and interrupt vector tables, in tagged form, and the flat
//! words that the hardware reads.

use vstd::prelude::*;

verus! {

/// Number of exception slots: exceptions 2 to 15.
pub const EXCEPTION_SLOTS: usize = 14;

/// Number of peripheral interrupt lines of the target.
pub const INTERRUPT_COUNT: usize = 240;

/// Architecture variant, which decides the optional exceptions.
#[derive(Clone, Copy, Debug, PartialEq, Eq, Structural)]
pub enum ArchVariant {
    /// Armv6-M: no memory-management, bus, usage, secure fault or debug monitor.
    Baseline,
    /// Armv7-M: adds memory-management, bus and usage faults and the debug monitor.
    Mainline,
    /// Armv8-M mainline: also the secure fault.
    MainlineSecure,
}

/// The system exceptions that may have a slot of their own.
#[derive(Clone, Copy, Debug, PartialEq, Eq, Structural)]
pub enum Exception {
    NonMaskableInt,
    /// Reached through the hard-fault trampoline.
    HardFault,
    MemoryManagement,
    BusFault,
    UsageFault,
    SecureFault,
    SVCall,
    DebugMonitor,
    PendSV,
    SysTick,
}

/// One slot of the exception table.
#[derive(Clone, Copy, Debug, PartialEq, Eq, Structural)]
pub enum Vector {
    /// The handler of this exception.
    Handler(Exception),
    /// No exception at this slot: the word is zero.
    Reserved,
}

/// One slot of the interrupt table.
#[derive(Clone, Copy, Debug, PartialEq, Eq, Structural)]
pub enum IrqHandler {
    /// The shared default handler.
    Default,
    /// The application's handler for this interrupt line.
    Override(u16),
}

/// The architecture's exception number of `e`.
pub open spec fn number(e: Exception) -> int {
    match e {
        Exception::NonMaskableInt => 2,
        Exception::HardFault => 3,
        Exception::MemoryManagement => 4,
        Exception::BusFault => 5,
        Exception::UsageFault => 6,
        Exception::SecureFault => 7,
        Exception::SVCall => 11,
        Exception::DebugMonitor => 12,
        Exception::PendSV => 14,
        Exception::SysTick => 15,
    }
}

/// The variant defines exception `e`.
pub open spec fn defines(v: ArchVariant, e: Exception) -> bool {
    match e {
        Exception::MemoryManagement | Exception::BusFault | Exception::UsageFault
        | Exception::DebugMonitor => v != ArchVariant::Baseline,
        Exception::SecureFault => v == ArchVariant::MainlineSecure,
        _ => true,
    }
}

/// Slot `i` of the exception table of variant `v`: the handler of the
/// exception numbered `i + 2` where `v` defines one, else reserved.
pub open spec fn slot(v: ArchVariant, i: int) -> Vector {
    if exists|e: Exception| number(e) == i + 2 && defines(v, e) {
        Vector::Handler(choose|e: Exception| number(e) == i + 2 && defines(v, e))
    } else {
        Vector::Reserved
    }
}

/// The exception numbered `n`, if the architecture names one.
pub fn exception_numbered(n: u8) -> (r: Option<Exception>)
    ensures
        match r {
            Some(e) => number(e) == n,
            None => forall|e: Exception| number(e) != n,
        },
{
    match n {
        2 => Some(Exception::NonMaskableInt),
        3 => Some(Exception::HardFault),
        4 => Some(Exception::MemoryManagement),
        5 => Some(Exception::BusFault),
        6 => Some(Exception::UsageFault),
        7 => Some(Exception::SecureFault),
        11 => Some(Exception::SVCall),
        12 => Some(Exception::DebugMonitor),
        14 => Some(Exception::PendSV),
        15 => Some(Exception::SysTick),
        _ => None,
    }
}

impl ArchVariant {
    /// This variant defines exception `e`.
    pub fn defines(&self, e: Exception) -> (r: bool)
        ensures
            r == defines(*self, e),
    {
        match e {
            Exception::MemoryManagement | Exception::BusFault | Exception::UsageFault
            | Exception::DebugMonitor => !matches!(self, ArchVariant::Baseline),
            Exception::SecureFault => matches!(self, ArchVariant::MainlineSecure),
            _ => true,
        }
    }
}

/// The exception table of `variant`, slot `i` for exception `i + 2`.
pub fn exception_vectors(variant: ArchVariant) -> (r: Vec<Vector>)
    ensures
        r@.len() == EXCEPTION_SLOTS,
        forall|i: int| 0 <= i < EXCEPTION_SLOTS ==> #[trigger] r@[i] == slot(variant, i),
{
    let mut table: Vec<Vector> = Vec::new();
    let mut i: usize = 0;
    while i < EXCEPTION_SLOTS
        invariant
            i <= EXCEPTION_SLOTS,
            table@.len() == i,
            forall|k: int| 0 <= k < i ==> #[trigger] table@[k] == slot(variant, k),
        decreases EXCEPTION_SLOTS - i,
    {
        let v = match exception_numbered((i + 2) as u8) {
            Some(e) => if variant.defines(e) {
                Vector::Handler(e)
            } else {
                Vector::Reserved
            },
            None => Vector::Reserved,
        };
        proof {
            if let Vector::Handler(e) = v {
                assert(number(e) == i + 2 && defines(variant, e));
                let c = choose|c: Exception| number(c) == i + 2 && defines(variant, c);
                assert(c == e);
            } else {
                assert(forall|e: Exception| !(number(e) == i + 2 && defines(variant, e)));
            }
        }
        table.push(v);
        i = i + 1;
    }
    table
}

/// The word placed for a slot: the handler's address, or zero when reserved.
pub open spec fn word_of(v: Vector, addrs: Seq<u32>) -> u32 {
    match v {
        Vector::Handler(e) => addrs[number(e)],
        Vector::Reserved => 0,
    }
}

/// The flat words of an exception table, given the address of each
/// exception's handler indexed by exception number.
pub fn encode_vectors(table: &Vec<Vector>, addrs: &Vec<u32>) -> (r: Vec<u32>)
    requires
        addrs@.len() == 16,
    ensures
        r@.len() == table@.len(),
        forall|i: int| 0 <= i < table@.len() ==> #[trigger] r@[i] == word_of(table@[i], addrs@),
{
    let mut words: Vec<u32> = Vec::new();
    let mut i: usize = 0;
    while i < table.len()
        invariant
            addrs@.len() == 16,
            i <= table@.len(),
            words@.len() == i,
            forall|k: int| 0 <= k < i ==> #[trigger] words@[k] == word_of(table@[k], addrs@),
        decreases table@.len() - i,
    {
        let w = match table[i] {
            Vector::Handler(e) => addrs[exception_number(e)],
            Vector::Reserved => 0,
        };
        words.push(w);
        i = i + 1;
    }
    words
}

/// The architecture's exception number of `e`.
pub fn exception_number(e: Exception) -> (r: usize)
    ensures
        r == number(e),
{
    match e {
        Exception::NonMaskableInt => 2,
        Exception::HardFault => 3,
        Exception::MemoryManagement => 4,
        Exception::BusFault => 5,
        Exception::UsageFault => 6,
        Exception::SecureFault => 7,
        Exception::SVCall => 11,
        Exception::DebugMonitor => 12,
        Exception::PendSV => 14,
        Exception::SysTick => 15,
    }
}

/// The exception table has fourteen slots for every variant; a slot is
/// reserved exactly where the variant defines no exception of that number,
/// and a reserved slot's word is zero while a handler's word is its nonzero
/// address.
pub proof fn lemma_exception_table(v: ArchVariant, addrs: Seq<u32>, i: int)
    requires
        addrs.len() == 16,
        forall|n: int| 0 <= n < 16 ==> addrs[n] != 0,
        0 <= i < EXCEPTION_SLOTS,
    ensures
        (slot(v, i) == Vector::Reserved) <==> (forall|e: Exception|
            number(e) == i + 2 ==> !defines(v, e)),
        (word_of(slot(v, i), addrs) == 0) <==> (slot(v, i) == Vector::Reserved),
{
    if let Vector::Handler(e) = slot(v, i) {
        assert(number(e) == i + 2 && defines(v, e));
    }
}

/// The interrupt table of `count` lines: line `i` has the application's
/// handler where `overrides` names it, else the default handler.
pub open spec fn irq_slot(overrides: Seq<u16>, i: int) -> IrqHandler {
    if overrides.contains(i as u16) {
        IrqHandler::Override(i as u16)
    } else {
        IrqHandler::Default
    }
}

/// Builds the interrupt table of `count` lines, each bound to the default
/// handler unless `overrides` lists its line.
pub fn interrupt_vectors(count: usize, overrides: &Vec<u16>) -> (r: Vec<IrqHandler>)
    requires
        count <= 0x1_0000,
    ensures
        r@.len() == count,
        forall|i: int| 0 <= i < count ==> #[trigger] r@[i] == irq_slot(overrides@, i),
{
    let mut table: Vec<IrqHandler> = Vec::new();
    let mut i: usize = 0;
    while i < count
        invariant
            i <= count <= 0x1_0000,
            table@.len() == i,
            forall|k: int| 0 <= k < i ==> #[trigger] table@[k] == irq_slot(overrides@, k),
        decreases count - i,
    {
        let line = i as u16;
        let mut found = false;
        let mut j: usize = 0;
        while j < overrides.len()
            invariant
                j <= overrides@.len(),
                found <==> exists|k: int| 0 <= k < j && overrides@[k] == line,
            decreases overrides@.len() - j,
        {
            if overrides[j] == line {
                found = true;
            }
            j = j + 1;
        }
        proof {
            if found {
                let k = choose|k: int| 0 <= k < j && overrides@[k] == line;
                assert(overrides@[k] == line);
            }
        }
        table.push(if found { IrqHandler::Override(line) } else { IrqHandler::Default });
        i = i + 1;
    }
    table
}

/// Every line that no override names is bound to the default handler, and
/// the table has exactly one slot per line.
pub proof fn lemma_interrupt_defaults(overrides: Seq<u16>, i: int)
    requires
        0 <= i < 0x1_0000,
        !overrides.contains(i as u16),
    ensures
        irq_slot(overrides, i) == IrqHandler::Default,
{
}

} // verus!
