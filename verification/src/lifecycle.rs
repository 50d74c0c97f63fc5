//! What a process does around its own code: writing a line, reporting a
//! panic and leaving, and serving the allocator.
//!
//! An operation that takes more than one trap is a value that is stepped:
//! `pending` names the trap to issue next, `resume` takes the kernel's answer
//! to it. The caller issues the traps; every decision is taken here.

use vstd::prelude::*;
use vstd::string::StringExecFns;
use crate::buffer::text32_as_str;
use crate::decimal::{decimal, format_u32};
use crate::facade::{exit, failure_code, free, malloc, print, region, region_of, status, status_of, status_word};
use crate::syscall::{ByteRange, SysCall, Trap};

verus! {

/// The exit status of a process that panicked.
pub const PANIC_STATUS: i32 = -1;

/// A line on its way to the console: the text, then one newline. The
/// newline is sent whether or not the text was taken. The line fails with the
/// first failure met.
#[derive(Clone, Copy, Debug, PartialEq, Eq)]
pub enum PrintLine {
    /// The text is to be sent.
    Text { text: ByteRange, newline: usize },
    /// The text was answered with `first`; the newline is to be sent.
    Newline { newline: usize, first: Result<(), i32> },
    /// Nothing is left to send.
    Done(Result<(), i32>),
}

impl PrintLine {
    /// The trap to issue next, if any is left.
    pub open spec fn spec_pending(self) -> Option<Trap> {
        match self {
            PrintLine::Text { text, newline } => Some(Trap::Two(SysCall::Print, text.addr, text.len)),
            PrintLine::Newline { newline, first } => Some(Trap::Two(SysCall::Print, newline, 1)),
            PrintLine::Done(_) => None,
        }
    }

    /// The line after the kernel answered the pending trap with `raw`.
    pub open spec fn spec_resume(self, raw: isize) -> PrintLine {
        match self {
            PrintLine::Text { text, newline } => PrintLine::Newline { newline, first: status_of(raw) },
            PrintLine::Newline { newline, first } => PrintLine::Done(
                match first {
                    Err(code) => Err(code),
                    Ok(()) => status_of(raw),
                },
            ),
            PrintLine::Done(result) => PrintLine::Done(result),
        }
    }

    /// How the line ended, once it has.
    pub open spec fn spec_outcome(self) -> Option<Result<(), i32>> {
        match self {
            PrintLine::Done(result) => Some(result),
            _ => None,
        }
    }

    /// The trap to issue next, if any is left.
    pub fn pending(&self) -> (trap: Option<Trap>)
        ensures
            trap == self.spec_pending(),
    {
        match self {
            PrintLine::Text { text, newline } => Some(print(*text)),
            PrintLine::Newline { newline, first } => Some(print(ByteRange { addr: *newline, len: 1 })),
            PrintLine::Done(_) => None,
        }
    }

    /// Takes the kernel's answer to the pending trap. A line that is done
    /// stays as it is.
    pub fn resume(self, raw: isize) -> (next: PrintLine)
        ensures
            next == self.spec_resume(raw),
    {
        match self {
            PrintLine::Text { text, newline } => PrintLine::Newline { newline, first: status(raw) },
            PrintLine::Newline { newline, first } => match first {
                Err(code) => PrintLine::Done(Err(code)),
                Ok(()) => PrintLine::Done(status(raw)),
            },
            PrintLine::Done(result) => PrintLine::Done(result),
        }
    }

    /// How the line ended, once it has.
    pub fn outcome(&self) -> (outcome: Option<Result<(), i32>>)
        ensures
            outcome == self.spec_outcome(),
    {
        match self {
            PrintLine::Done(result) => Some(*result),
            _ => None,
        }
    }
}

/// Starts writing the bytes of `text` followed by a newline. `newline` is the
/// address of one newline byte.
pub fn println(text: ByteRange, newline: usize) -> (line: PrintLine)
    ensures
        line == (PrintLine::Text { text, newline }),
{
    PrintLine::Text { text, newline }
}

/// A line always takes two traps, the text and then the newline, whatever
/// is answered to the text. It succeeds when both do, and else fails with
/// the first failure: that of the text, whatever is answered to the newline,
/// or that of the newline after a text that was taken. After the second
/// answer nothing is asked for.
pub proof fn lemma_println_outcome(text: ByteRange, newline: usize, first: isize, second: isize)
    ensures
        (PrintLine::Text { text, newline }).spec_pending() == Some(
            Trap::Two(SysCall::Print, text.addr, text.len),
        ),
        (PrintLine::Text { text, newline }).spec_resume(first).spec_pending() == Some(
            Trap::Two(SysCall::Print, newline, 1),
        ),
        (PrintLine::Text { text, newline }).spec_resume(first).spec_outcome() is None,
        (PrintLine::Text { text, newline }).spec_resume(first).spec_resume(second).spec_pending()
            is None,
        first < 0 ==> (PrintLine::Text { text, newline }).spec_resume(first).spec_resume(
            second,
        ).spec_outcome() == Some(Err::<(), i32>(failure_code(first))),
        first >= 0 ==> (PrintLine::Text { text, newline }).spec_resume(first).spec_resume(
            second,
        ).spec_outcome() == Some(status_of(second)),
        first >= 0 && second >= 0 ==> (PrintLine::Text { text, newline }).spec_resume(
            first,
        ).spec_resume(second).spec_outcome() == Some(Ok::<(), i32>(())),
{
}

/// The way of a panicking process to its end: the message line, the
/// location line if a location is known, then the exit trap with
/// [`PANIC_STATUS`]. Whether a line fails is not looked at: the path goes on.
#[derive(Clone, Copy, Debug, PartialEq, Eq)]
pub enum PanicPath {
    /// The message line is being written.
    Message { line: PrintLine, location: Option<ByteRange>, newline: usize },
    /// The location line is being written.
    Location { line: PrintLine },
    /// The exit trap is to be issued.
    Exit,
    /// The exit trap was issued. Nothing follows.
    Halted,
}

impl PanicPath {
    /// The same point of the path with finished lines left behind.
    pub open spec fn spec_settled(self) -> PanicPath {
        match self {
            PanicPath::Message { line: PrintLine::Done(_), location: Some(text), newline } => {
                PanicPath::Location { line: PrintLine::Text { text, newline } }
            },
            PanicPath::Message { line: PrintLine::Done(_), location: None, newline } => PanicPath::Exit,
            PanicPath::Location { line: PrintLine::Done(_) } => PanicPath::Exit,
            _ => self,
        }
    }

    /// The trap to issue next; none once the exit trap was issued.
    pub open spec fn spec_pending(self) -> Option<Trap> {
        match self.spec_settled() {
            PanicPath::Message { line, location, newline } => line.spec_pending(),
            PanicPath::Location { line } => line.spec_pending(),
            PanicPath::Exit => Some(Trap::One(SysCall::Exit, status_word(PANIC_STATUS))),
            PanicPath::Halted => None,
        }
    }

    /// The path after the kernel answered the pending trap with `raw`.
    pub open spec fn spec_resume(self, raw: isize) -> PanicPath {
        match self.spec_settled() {
            PanicPath::Message { line, location, newline } => (PanicPath::Message {
                line: line.spec_resume(raw),
                location,
                newline,
            }).spec_settled(),
            PanicPath::Location { line } => (PanicPath::Location {
                line: line.spec_resume(raw),
            }).spec_settled(),
            PanicPath::Exit => PanicPath::Halted,
            PanicPath::Halted => PanicPath::Halted,
        }
    }

    /// An upper bound on the traps that are still to be issued.
    pub open spec fn spec_traps_left(self) -> nat {
        match self.spec_settled() {
            PanicPath::Message { line: PrintLine::Text { .. }, .. } => 5,
            PanicPath::Message { .. } => 4,
            PanicPath::Location { line: PrintLine::Text { .. } } => 3,
            PanicPath::Location { .. } => 2,
            PanicPath::Exit => 1,
            PanicPath::Halted => 0,
        }
    }

    fn settled(self) -> (path: PanicPath)
        ensures
            path == self.spec_settled(),
            path.spec_settled() == path,
    {
        match self {
            PanicPath::Message { line: PrintLine::Done(_), location: Some(text), newline } => {
                PanicPath::Location { line: println(text, newline) }
            },
            PanicPath::Message { line: PrintLine::Done(_), location: None, newline } => PanicPath::Exit,
            PanicPath::Location { line: PrintLine::Done(_) } => PanicPath::Exit,
            _ => self,
        }
    }

    /// The trap to issue next; none once the exit trap was issued.
    pub fn pending(&self) -> (trap: Option<Trap>)
        ensures
            trap == self.spec_pending(),
    {
        match self.settled() {
            PanicPath::Message { line, location, newline } => line.pending(),
            PanicPath::Location { line } => line.pending(),
            PanicPath::Exit => exit(PANIC_STATUS).pending(),
            PanicPath::Halted => None,
        }
    }

    /// Takes the kernel's answer to the pending trap. Whatever the answer,
    /// the path goes on towards the exit trap; after that trap it is halted
    /// and stays so.
    pub fn resume(self, raw: isize) -> (next: PanicPath)
        ensures
            next == self.spec_resume(raw),
    {
        match self.settled() {
            PanicPath::Message { line, location, newline } => (PanicPath::Message {
                line: line.resume(raw),
                location,
                newline,
            }).settled(),
            PanicPath::Location { line } => (PanicPath::Location { line: line.resume(raw) }).settled(),
            PanicPath::Exit => PanicPath::Halted,
            PanicPath::Halted => PanicPath::Halted,
        }
    }
}

/// Starts the report of a panic. `message` and `location` are the two lines
/// of text, without their newlines; `newline` is the address of one newline
/// byte.
pub fn panic(message: ByteRange, location: Option<ByteRange>, newline: usize) -> (path: PanicPath)
    ensures
        path == (PanicPath::Message { line: PrintLine::Text { text: message, newline }, location, newline }),
{
    PanicPath::Message { line: println(message, newline), location, newline }
}

/// The first line of a panic report.
pub fn panic_message(reason: Option<&str>) -> (text: String)
    ensures
        text@ == match reason {
            Some(reason) => "PANIC: "@ + reason@,
            None => "PANIC: (no message)"@,
        },
{
    match reason {
        Some(reason) => {
            let mut text = String::from_str("PANIC: ");
            text.append(reason);
            text
        },
        None => String::from_str("PANIC: (no message)"),
    }
}

/// The second line of a panic report: where the panic was raised.
pub fn panic_location(file: &str, line: u32) -> (text: String)
    ensures
        text@ == "  at "@ + file@ + ":"@ + decimal(line as nat),
{
    let mut text = String::from_str("  at ");
    text.append(file);
    text.append(":");
    let number = format_u32(line);
    text.append(text32_as_str(&number));
    text
}

/// Every answer takes the path one step further, so no failure keeps it from
/// the exit trap: from the start at most five traps are issued.
pub proof fn lemma_panic_advances(path: PanicPath, raw: isize)
    ensures
        path.spec_traps_left() <= 5,
        path.spec_traps_left() > 0 ==> path.spec_resume(raw).spec_traps_left() < path.spec_traps_left(),
        path.spec_traps_left() == 0 <==> path.spec_pending() is None,
{
}

/// The exit trap is the last one. Until it is pending every trap is a
/// `Print`; once it was issued the path is halted, asks for nothing and
/// stays halted whatever is answered.
pub proof fn lemma_panic_is_terminal(path: PanicPath, raw: isize)
    ensures
        path.spec_settled() == PanicPath::Exit <==> path.spec_pending() == Some(
            Trap::One(SysCall::Exit, status_word(PANIC_STATUS)),
        ),
        path.spec_pending() matches Some(trap) ==> (trap.spec_call() == SysCall::Print
            || path.spec_settled() == PanicPath::Exit),
        path.spec_settled() == PanicPath::Exit ==> path.spec_resume(raw) == PanicPath::Halted,
        path.spec_resume(raw) == PanicPath::Halted ==> (path.spec_settled() == PanicPath::Exit
            || path.spec_settled() == PanicPath::Halted),
        PanicPath::Halted.spec_pending() is None,
        PanicPath::Halted.spec_resume(raw) == PanicPath::Halted,
{
}

/// With a location, a panic issues the message, a newline, the location, a
/// newline and the exit trap, in this order, and then nothing. No answer of
/// the kernel changes that.
pub proof fn lemma_panic_report(
    message: ByteRange,
    location: ByteRange,
    newline: usize,
    a: isize,
    b: isize,
    c: isize,
    d: isize,
    e: isize,
)
    ensures
        ({
            let at0 = PanicPath::Message {
                line: PrintLine::Text { text: message, newline },
                location: Some(location),
                newline,
            };
            let at1 = at0.spec_resume(a);
            let at2 = at1.spec_resume(b);
            let at3 = at2.spec_resume(c);
            let at4 = at3.spec_resume(d);
            let at5 = at4.spec_resume(e);
            &&& at0.spec_pending() == Some(Trap::Two(SysCall::Print, message.addr, message.len))
            &&& at1.spec_pending() == Some(Trap::Two(SysCall::Print, newline, 1))
            &&& at2.spec_pending() == Some(Trap::Two(SysCall::Print, location.addr, location.len))
            &&& at3.spec_pending() == Some(Trap::Two(SysCall::Print, newline, 1))
            &&& at4.spec_pending() == Some(Trap::One(SysCall::Exit, status_word(PANIC_STATUS)))
            &&& at5.spec_pending() is None
        }),
{
}

/// Without a location, a panic issues the message, a newline and the exit
/// trap, in this order, and then nothing.
pub proof fn lemma_panic_report_without_location(
    message: ByteRange,
    newline: usize,
    a: isize,
    b: isize,
    c: isize,
)
    ensures
        ({
            let at0 = PanicPath::Message {
                line: PrintLine::Text { text: message, newline },
                location: None,
                newline,
            };
            let at1 = at0.spec_resume(a);
            let at2 = at1.spec_resume(b);
            let at3 = at2.spec_resume(c);
            &&& at0.spec_pending() == Some(Trap::Two(SysCall::Print, message.addr, message.len))
            &&& at1.spec_pending() == Some(Trap::Two(SysCall::Print, newline, 1))
            &&& at2.spec_pending() == Some(Trap::One(SysCall::Exit, status_word(PANIC_STATUS)))
            &&& at3.spec_pending() is None
        }),
{
}

/// A region that is asked for, used and given back. It is given back once
/// if the kernel gave one, and not at all if it gave none.
#[derive(Clone, Copy, Debug, PartialEq, Eq)]
pub enum MemTest {
    /// A region of `size` bytes is to be asked for.
    Asking { size: usize },
    /// The kernel gave the region at `addr`; it is to be given back.
    Freeing { addr: usize },
    /// Nothing is left to do. `freed` is `None` where no region was given.
    Done { region: Result<usize, i32>, freed: Option<Result<(), i32>> },
}

impl MemTest {
    /// The trap to issue next, if any is left.
    pub open spec fn spec_pending(self) -> Option<Trap> {
        match self {
            MemTest::Asking { size } => Some(Trap::One(SysCall::Malloc, size)),
            MemTest::Freeing { addr } => Some(Trap::One(SysCall::Free, addr)),
            MemTest::Done { .. } => None,
        }
    }

    /// The test after the kernel answered the pending trap with `raw`.
    pub open spec fn spec_resume(self, raw: isize) -> MemTest {
        match self {
            MemTest::Asking { size } => match region_of(raw) {
                Ok(addr) => MemTest::Freeing { addr },
                Err(code) => MemTest::Done { region: Err(code), freed: None },
            },
            MemTest::Freeing { addr } => MemTest::Done {
                region: Ok(addr),
                freed: Some(status_of(raw)),
            },
            MemTest::Done { region, freed } => MemTest::Done { region, freed },
        }
    }

    /// The trap to issue next, if any is left.
    pub fn pending(&self) -> (trap: Option<Trap>)
        ensures
            trap == self.spec_pending(),
    {
        match self {
            MemTest::Asking { size } => Some(malloc(*size)),
            MemTest::Freeing { addr } => Some(free(*addr)),
            MemTest::Done { .. } => None,
        }
    }

    /// Takes the kernel's answer to the pending trap. A test that is done
    /// stays as it is.
    pub fn resume(self, raw: isize) -> (next: MemTest)
        ensures
            next == self.spec_resume(raw),
    {
        match self {
            MemTest::Asking { size } => match region(raw) {
                Ok(addr) => MemTest::Freeing { addr },
                Err(code) => MemTest::Done { region: Err(code), freed: None },
            },
            MemTest::Freeing { addr } => MemTest::Done { region: Ok(addr), freed: Some(status(raw)) },
            MemTest::Done { region, freed } => MemTest::Done { region, freed },
        }
    }
}

/// A region that the kernel gave is given back exactly once, under the
/// address it was given at, and nothing is given back where the kernel gave
/// none. After that no trap is asked for, whatever is answered.
pub proof fn lemma_region_is_freed_once(size: usize, asked: isize, freed: isize, later: isize)
    ensures
        ({
            let at0 = MemTest::Asking { size };
            let at1 = at0.spec_resume(asked);
            let at2 = at1.spec_resume(freed);
            let at3 = at2.spec_resume(later);
            &&& at0.spec_pending() == Some(Trap::One(SysCall::Malloc, size))
            &&& asked > 0 ==> at1.spec_pending() == Some(Trap::One(SysCall::Free, asked as usize))
            &&& asked > 0 ==> at2 == (MemTest::Done {
                region: Ok(asked as usize),
                freed: Some(status_of(freed)),
            })
            &&& asked <= 0 ==> at1 == (MemTest::Done {
                region: Err(failure_code(asked)),
                freed: None,
            })
            &&& asked <= 0 ==> at1.spec_pending() is None
            &&& at2.spec_pending() is None
            &&& at3 == at2
        }),
{
}

/// The allocator of a process: it passes every request on to the kernel and
/// keeps no state of its own.
#[derive(Clone, Copy, Debug, PartialEq, Eq)]
pub struct MTOSAllocator;

impl MTOSAllocator {
    /// The trap that asks for `size` bytes.
    pub fn allocate(&self, size: usize) -> (trap: Trap)
        ensures
            trap == Trap::One(SysCall::Malloc, size),
    {
        malloc(size)
    }

    /// The address to hand to the caller of the allocator for the answer
    /// `raw`: that of the region, or zero, the null address, where the kernel
    /// gave none.
    pub fn allocated(&self, raw: isize) -> (addr: usize)
        ensures
            addr == match region_of(raw) {
                Ok(addr) => addr,
                Err(_) => 0,
            },
            addr != 0 <==> raw > 0,
    {
        match region(raw) {
            Ok(addr) => addr,
            Err(_) => 0,
        }
    }

    /// The trap that gives back the region at `addr`. Its answer is not
    /// looked at.
    pub fn dealloc(&self, addr: usize) -> (trap: Trap)
        ensures
            trap == Trap::One(SysCall::Free, addr),
    {
        free(addr)
    }
}

} // verus!
