//! The dispatch table and the decisions that each interrupt handler makes.
use vstd::prelude::*;
use crate::keyboard::{fed_bytes, key_after, DecodedKey, KeyboardDecoder};

verus! {

/// Vector of the first line of the primary interrupt controller.
pub const PIC_1_OFFSET: u8 = 32;

/// Vector of the first line of the secondary interrupt controller.
pub const PIC_2_OFFSET: u8 = 40;

/// The hardware interrupts that the kernel handles.
#[derive(Debug, Clone, Copy, PartialEq, Eq, Structural)]
pub enum InterruptIndex {
    Timer,
    Keyboard,
}

impl InterruptIndex {
    /// The vector that the interrupt is delivered on.
    pub open spec fn vector(self) -> u8 {
        match self {
            InterruptIndex::Timer => PIC_1_OFFSET,
            InterruptIndex::Keyboard => (PIC_1_OFFSET + 1) as u8,
        }
    }

    pub fn as_u8(self) -> (r: u8)
        ensures
            r == self.vector(),
    {
        match self {
            InterruptIndex::Timer => PIC_1_OFFSET,
            InterruptIndex::Keyboard => PIC_1_OFFSET + 1,
        }
    }

    pub fn as_usize(self) -> (r: usize)
        ensures
            r == self.vector() as usize,
    {
        self.as_u8() as usize
    }
}

/// Vector of the breakpoint exception, fixed by the architecture.
pub const BREAKPOINT_VECTOR: u8 = 3;

/// Vector of the double-fault exception, fixed by the architecture.
pub const DOUBLE_FAULT_VECTOR: u8 = 8;

/// Vector of the page-fault exception, fixed by the architecture.
pub const PAGE_FAULT_VECTOR: u8 = 14;

/// Slot of the interrupt stack table that holds the dedicated double-fault stack.
pub const DOUBLE_FAULT_IST_INDEX: u16 = 0;

/// Number of entries in the dispatch table: one per vector.
pub const IDT_ENTRIES: usize = 256;

/// The routine bound to a vector.
#[derive(Debug, Clone, Copy, PartialEq, Eq, Structural)]
pub enum HandlerKind {
    Breakpoint,
    DoubleFault,
    PageFault,
    Timer,
    Keyboard,
}

/// A bound entry of the dispatch table: its routine, and the interrupt-stack
/// slot it switches to, if any.
#[derive(Debug, Clone, Copy, PartialEq, Eq, Structural)]
pub struct DispatchEntry {
    pub handler: HandlerKind,
    pub stack_index: Option<u16>,
}

/// What the kernel binds to each vector; `None` leaves the vector to the
/// hardware's default behaviour.
pub open spec fn bound_entry(vector: int) -> Option<DispatchEntry> {
    if vector == BREAKPOINT_VECTOR as int {
        Some(DispatchEntry { handler: HandlerKind::Breakpoint, stack_index: None })
    } else if vector == DOUBLE_FAULT_VECTOR as int {
        Some(DispatchEntry { handler: HandlerKind::DoubleFault, stack_index: Some(DOUBLE_FAULT_IST_INDEX) })
    } else if vector == PAGE_FAULT_VECTOR as int {
        Some(DispatchEntry { handler: HandlerKind::PageFault, stack_index: None })
    } else if vector == InterruptIndex::Timer.vector() as int {
        Some(DispatchEntry { handler: HandlerKind::Timer, stack_index: None })
    } else if vector == InterruptIndex::Keyboard.vector() as int {
        Some(DispatchEntry { handler: HandlerKind::Keyboard, stack_index: None })
    } else {
        None
    }
}

/// The interrupt dispatch table: one slot per vector.
pub struct DispatchTable {
    entries: Vec<Option<DispatchEntry>>,
}

impl View for DispatchTable {
    type V = Seq<Option<DispatchEntry>>;

    closed spec fn view(&self) -> Seq<Option<DispatchEntry>> {
        self.entries@
    }
}

impl DispatchTable {
    pub open spec fn wf(&self) -> bool {
        self@.len() == IDT_ENTRIES
    }

    /// The entry bound to `vector`.
    pub fn entry(&self, vector: u8) -> (r: Option<DispatchEntry>)
        requires
            self.wf(),
        ensures
            r == self@[vector as int],
    {
        self.entries[vector as usize]
    }
}

/// Builds the kernel's dispatch table: breakpoint, double fault (on its own
/// stack), page fault, timer and keyboard are bound, every other vector is
/// left unused. The boot code loads it into the CPU.
pub fn init_idt() -> (t: DispatchTable)
    ensures
        t.wf(),
        forall|v: int| 0 <= v < IDT_ENTRIES ==> #[trigger] t@[v] == bound_entry(v),
{
    let mut entries: Vec<Option<DispatchEntry>> = Vec::new();
    let mut v: usize = 0;
    while v < IDT_ENTRIES
        invariant
            v <= IDT_ENTRIES,
            entries@.len() == v,
            forall|i: int| 0 <= i < v ==> #[trigger] entries@[i] == bound_entry(i),
        decreases IDT_ENTRIES - v,
    {
        let e = if v == BREAKPOINT_VECTOR as usize {
            Some(DispatchEntry { handler: HandlerKind::Breakpoint, stack_index: None })
        } else if v == DOUBLE_FAULT_VECTOR as usize {
            Some(DispatchEntry { handler: HandlerKind::DoubleFault, stack_index: Some(DOUBLE_FAULT_IST_INDEX) })
        } else if v == PAGE_FAULT_VECTOR as usize {
            Some(DispatchEntry { handler: HandlerKind::PageFault, stack_index: None })
        } else if v == InterruptIndex::Timer.as_usize() {
            Some(DispatchEntry { handler: HandlerKind::Timer, stack_index: None })
        } else if v == InterruptIndex::Keyboard.as_usize() {
            Some(DispatchEntry { handler: HandlerKind::Keyboard, stack_index: None })
        } else {
            None
        };
        entries.push(e);
        v = v + 1;
    }
    DispatchTable { entries }
}

/// The reasons spelled out in bits 0 to 4 of a page-fault error code; the
/// report carries the whole code beside them.
#[derive(Debug, Clone, Copy, PartialEq, Eq, Structural)]
pub struct PageFaultCause {
    /// Set: the page was present and the access broke its protection;
    /// clear: the page was not present.
    pub protection_violation: bool,
    /// The access was a write (else a read).
    pub caused_by_write: bool,
    /// The access came from user mode.
    pub user_mode: bool,
    /// A reserved bit was set in a page-table entry.
    pub malformed_table: bool,
    /// The access was an instruction fetch.
    pub instruction_fetch: bool,
}

/// The diagnostic report that a handler hands to the text output.
#[derive(Debug, Clone, Copy, PartialEq, Eq, Structural)]
pub enum Diagnostic {
    Breakpoint,
    DoubleFault { error_code: u64 },
    PageFault { address: u64, error_code: u64, cause: PageFaultCause },
}

/// Text that a handler emits on the diagnostic output.
pub enum Emission {
    Char(char),
    KeyName(String),
}

/// Where execution goes once the handler is done.
#[derive(Debug, Clone, Copy, PartialEq, Eq, Structural)]
pub enum Continuation {
    /// Return to the interrupted instruction stream.
    Resume,
    /// Report and park the CPU in a halt loop.
    Halt,
}

/// What a handler does: what it reports, what it emits, which vector it
/// acknowledges to the interrupt controller, and how it ends.
pub struct Response {
    pub diagnostic: Option<Diagnostic>,
    pub emission: Option<Emission>,
    pub end_of_interrupt: Option<u8>,
    pub next: Continuation,
}

pub open spec fn breakpoint_response() -> Response {
    Response {
        diagnostic: Some(Diagnostic::Breakpoint),
        emission: None,
        end_of_interrupt: None,
        next: Continuation::Resume,
    }
}

/// A breakpoint is reported and execution goes on after it.
pub fn breakpoint_handler() -> (r: Response)
    ensures
        r == breakpoint_response(),
{
    Response {
        diagnostic: Some(Diagnostic::Breakpoint),
        emission: None,
        end_of_interrupt: None,
        next: Continuation::Resume,
    }
}

pub open spec fn double_fault_response(error_code: u64) -> Response {
    Response {
        diagnostic: Some(Diagnostic::DoubleFault { error_code }),
        emission: None,
        end_of_interrupt: None,
        next: Continuation::Halt,
    }
}

/// A double fault is reported and the CPU halts: it never resumes.
pub fn double_fault_handler(error_code: u64) -> (r: Response)
    ensures
        r == double_fault_response(error_code),
{
    Response {
        diagnostic: Some(Diagnostic::DoubleFault { error_code }),
        emission: None,
        end_of_interrupt: None,
        next: Continuation::Halt,
    }
}

/// Bits 0 to 4 of a page-fault error code, as the architecture defines them.
pub open spec fn fault_cause(error_code: u64) -> PageFaultCause {
    PageFaultCause {
        protection_violation: error_code % 2 == 1,
        caused_by_write: (error_code / 2) % 2 == 1,
        user_mode: (error_code / 4) % 2 == 1,
        malformed_table: (error_code / 8) % 2 == 1,
        instruction_fetch: (error_code / 16) % 2 == 1,
    }
}

/// Splits a page-fault error code into the reasons it reports.
pub fn page_fault_cause(error_code: u64) -> (c: PageFaultCause)
    ensures
        c == fault_cause(error_code),
{
    PageFaultCause {
        protection_violation: error_code % 2 == 1,
        caused_by_write: (error_code / 2) % 2 == 1,
        user_mode: (error_code / 4) % 2 == 1,
        malformed_table: (error_code / 8) % 2 == 1,
        instruction_fetch: (error_code / 16) % 2 == 1,
    }
}

pub open spec fn page_fault_response(address: u64, error_code: u64, policy: Continuation) -> Response {
    Response {
        diagnostic: Some(
            Diagnostic::PageFault { address, error_code, cause: fault_cause(error_code) },
        ),
        emission: None,
        end_of_interrupt: None,
        next: policy,
    }
}

/// The policy that the kernel applies to page faults: none is recovered
/// from, so every one halts.
pub const PAGE_FAULT_POLICY: Continuation = Continuation::Halt;

/// A page fault reports the faulting address and its whole error code,
/// with the architecture's first five reason bits spelled out, then goes
/// where `policy` says.
pub fn page_fault_handler_with_policy(address: u64, error_code: u64, policy: Continuation) -> (r:
    Response)
    ensures
        r == page_fault_response(address, error_code, policy),
{
    let cause = page_fault_cause(error_code);
    Response {
        diagnostic: Some(Diagnostic::PageFault { address, error_code, cause }),
        emission: None,
        end_of_interrupt: None,
        next: policy,
    }
}

/// A page fault under the kernel's policy: reported, then the CPU halts.
pub fn page_fault_handler(address: u64, error_code: u64) -> (r: Response)
    ensures
        r == page_fault_response(address, error_code, Continuation::Halt),
{
    page_fault_handler_with_policy(address, error_code, PAGE_FAULT_POLICY)
}

pub open spec fn timer_response() -> Response {
    Response {
        diagnostic: None,
        emission: Some(Emission::Char('.')),
        end_of_interrupt: Some(InterruptIndex::Timer.vector()),
        next: Continuation::Resume,
    }
}

/// A timer tick emits one dot and acknowledges the timer line.
pub fn timer_interrupt_handler() -> (r: Response)
    ensures
        r == timer_response(),
{
    Response {
        diagnostic: None,
        emission: Some(Emission::Char('.')),
        end_of_interrupt: Some(InterruptIndex::Timer.as_u8()),
        next: Continuation::Resume,
    }
}

pub open spec fn key_emission(key: DecodedKey) -> Emission {
    match key {
        DecodedKey::Unicode(c) => Emission::Char(c),
        DecodedKey::RawKey(name) => Emission::KeyName(name),
    }
}

pub open spec fn keyboard_response(key: Option<DecodedKey>) -> Response {
    Response {
        diagnostic: None,
        emission: match key {
            Some(k) => Some(key_emission(k)),
            None => None,
        },
        end_of_interrupt: Some(InterruptIndex::Keyboard.vector()),
        next: Continuation::Resume,
    }
}

/// What the keyboard handler does once the decoder has answered: it emits
/// the decoded key, if any, and always acknowledges the keyboard line.
pub fn keyboard_key_response(key: Option<DecodedKey>) -> (r: Response)
    ensures
        r == keyboard_response(key),
{
    let emission = match key {
        Some(DecodedKey::Unicode(c)) => Some(Emission::Char(c)),
        Some(DecodedKey::RawKey(name)) => Some(Emission::KeyName(name)),
        None => None,
    };
    Response {
        diagnostic: None,
        emission,
        end_of_interrupt: Some(InterruptIndex::Keyboard.as_u8()),
        next: Continuation::Resume,
    }
}

/// Handles one byte read from the keyboard data port: the decoder takes it,
/// the key it answers, if any, is emitted once, and whatever it answers, a
/// partial or rejected sequence included, the handler acknowledges the
/// keyboard line and resumes.
pub fn keyboard_interrupt_handler(decoder: &mut KeyboardDecoder, scancode: u8) -> (r: Response)
    requires
        old(decoder).wf(),
    ensures
        final(decoder).wf(),
        fed_bytes(*final(decoder)) == fed_bytes(*old(decoder)).push(scancode),
        r == keyboard_response(key_after(fed_bytes(*final(decoder)))),
        r.end_of_interrupt == Some(InterruptIndex::Keyboard.vector()),
        r.next == Continuation::Resume,
{
    let key = decoder.add_byte(scancode);
    keyboard_key_response(key)
}

/// A double fault is always reported, on a stack of its own: the dispatch
/// table runs its handler on the dedicated interrupt stack, whatever state
/// the interrupted stack is in, and the handler's response carries a report
/// and halts rather than returning into the faulting code.
pub proof fn lemma_double_fault_reported_on_own_stack(error_code: u64)
    ensures
        bound_entry(DOUBLE_FAULT_VECTOR as int) == Some(
            DispatchEntry { handler: HandlerKind::DoubleFault, stack_index: Some(DOUBLE_FAULT_IST_INDEX) },
        ),
        double_fault_response(error_code).diagnostic == Some(Diagnostic::DoubleFault { error_code }),
        double_fault_response(error_code).next == Continuation::Halt,
{
}

/// Number of hardware interrupt lines behind the two chained controllers,
/// delivered on vectors `PIC_1_OFFSET` to `PIC_1_OFFSET + 15`.
pub const IRQ_LINES: usize = 16;

/// The controller line that a vector is delivered on, if it is a hardware one.
pub open spec fn irq_line(vector: u8) -> Option<int> {
    if PIC_1_OFFSET <= vector < PIC_1_OFFSET + IRQ_LINES {
        Some(vector - PIC_1_OFFSET)
    } else {
        None
    }
}

/// Raising `vector` on lines whose in-service flags are `lines`: a hardware
/// line is delivered only when it is not in service, and is in service from
/// then on; the flags that follow, and whether it was delivered.
pub open spec fn raise_spec(lines: Seq<bool>, vector: u8) -> (Seq<bool>, bool) {
    match irq_line(vector) {
        Some(l) => if !lines[l] {
            (lines.update(l, true), true)
        } else {
            (lines, false)
        },
        None => (lines, false),
    }
}

/// An end-of-interrupt for `eoi` takes its line out of service.
pub open spec fn acknowledge_spec(lines: Seq<bool>, eoi: Option<u8>) -> Seq<bool> {
    match eoi {
        Some(v) => match irq_line(v) {
            Some(l) => lines.update(l, false),
            None => lines,
        },
        None => lines,
    }
}

/// The in-service state of the sixteen hardware interrupt lines: a line that
/// was delivered is withheld until its handler acknowledges it.
pub struct InterruptLines {
    in_service: Vec<bool>,
}

impl View for InterruptLines {
    type V = Seq<bool>;

    closed spec fn view(&self) -> Seq<bool> {
        self.in_service@
    }
}

impl InterruptLines {
    pub open spec fn wf(&self) -> bool {
        self@.len() == IRQ_LINES
    }

    /// All lines idle, as after the controllers are initialised.
    pub fn new() -> (r: InterruptLines)
        ensures
            r.wf(),
            forall|l: int| 0 <= l < IRQ_LINES ==> !#[trigger] r@[l],
    {
        let mut in_service: Vec<bool> = Vec::new();
        let mut i: usize = 0;
        while i < IRQ_LINES
            invariant
                i <= IRQ_LINES,
                in_service@.len() == i,
                forall|l: int| 0 <= l < i ==> !#[trigger] in_service@[l],
            decreases IRQ_LINES - i,
        {
            in_service.push(false);
            i = i + 1;
        }
        InterruptLines { in_service }
    }

    /// Raises `vector`; returns whether the CPU receives it.
    pub fn raise(&mut self, vector: u8) -> (delivered: bool)
        requires
            old(self).wf(),
        ensures
            final(self).wf(),
            (final(self)@, delivered) == raise_spec(old(self)@, vector),
    {
        if PIC_1_OFFSET <= vector && vector < PIC_1_OFFSET + IRQ_LINES as u8 {
            let l = (vector - PIC_1_OFFSET) as usize;
            if !self.in_service[l] {
                self.in_service.set(l, true);
                true
            } else {
                false
            }
        } else {
            false
        }
    }

    /// Applies a handler's end-of-interrupt, if it gave one.
    pub fn acknowledge(&mut self, eoi: Option<u8>)
        requires
            old(self).wf(),
        ensures
            final(self).wf(),
            final(self)@ == acknowledge_spec(old(self)@, eoi),
    {
        if let Some(v) = eoi {
            if PIC_1_OFFSET <= v && v < PIC_1_OFFSET + IRQ_LINES as u8 {
                let l = (v - PIC_1_OFFSET) as usize;
                self.in_service.set(l, false);
            }
        }
    }
}

/// The timer keeps ticking: with the timer bound in the dispatch table and
/// its line idle, a tick is delivered, its handler emits exactly once and
/// acknowledges the timer vector exactly once, and after that
/// acknowledgement the next tick is delivered too.
pub proof fn lemma_timer_tick_not_stalled(lines: Seq<bool>)
    requires
        lines.len() == IRQ_LINES,
        !lines[InterruptIndex::Timer.vector() - PIC_1_OFFSET],
    ensures
        bound_entry(InterruptIndex::Timer.vector() as int) == Some(
            DispatchEntry { handler: HandlerKind::Timer, stack_index: None },
        ),
        raise_spec(lines, InterruptIndex::Timer.vector()).1,
        timer_response().emission is Some,
        timer_response().end_of_interrupt == Some(InterruptIndex::Timer.vector()),
        timer_response().next == Continuation::Resume,
        raise_spec(
            acknowledge_spec(
                raise_spec(lines, InterruptIndex::Timer.vector()).0,
                timer_response().end_of_interrupt,
            ),
            InterruptIndex::Timer.vector(),
        ).1,
{
}

} // verus!
