//! One request per kernel service, and the reading of the kernel's answers.
//!
//! A request says which trap carries the call. The answer is one signed
//! word: zero and above is success, below zero is a failure whose code means
//! something to the kernel only. Allocation is the exception: zero too is a
//! failure there.

use vstd::prelude::*;
use crate::syscall::{ByteRange, SysCall, Trap};

verus! {

/// The word that carries an exit status: the status itself, negative ones in
/// two's complement over the whole word.
pub open spec fn status_word(code: i32) -> usize {
    if code >= 0 {
        code as usize
    } else {
        (usize::MAX + 1 + code) as usize
    }
}

/// The end of a process: the exit trap, and nothing after it.
#[derive(Clone, Copy, Debug, PartialEq, Eq, Structural)]
pub enum ExitPath {
    /// The exit trap is to be issued.
    Leaving { code: i32 },
    /// The exit trap was issued. The process runs nothing further.
    Halted,
}

impl ExitPath {
    /// The trap to issue next; none once the exit trap was issued.
    pub open spec fn spec_pending(self) -> Option<Trap> {
        match self {
            ExitPath::Leaving { code } => Some(Trap::One(SysCall::Exit, status_word(code))),
            ExitPath::Halted => None,
        }
    }

    /// The path after the pending trap was issued. The kernel is not meant
    /// to answer the exit trap; if it does, the answer `raw` changes nothing.
    pub open spec fn spec_resume(self, raw: isize) -> ExitPath {
        ExitPath::Halted
    }

    /// The trap to issue next; none once the exit trap was issued.
    pub fn pending(&self) -> (trap: Option<Trap>)
        ensures
            trap == self.spec_pending(),
    {
        match self {
            ExitPath::Leaving { code } => {
                let word: usize = if *code >= 0 {
                    *code as usize
                } else {
                    usize::MAX - ((-(*code + 1)) as usize)
                };
                Some(Trap::One(SysCall::Exit, word))
            },
            ExitPath::Halted => None,
        }
    }

    /// Records that the pending trap was issued: the path is halted, whatever
    /// came back.
    pub fn resume(self, raw: isize) -> (next: ExitPath)
        ensures
            next == self.spec_resume(raw),
    {
        ExitPath::Halted
    }
}

/// Hands `code` to the kernel as the status of the process and ends the
/// process.
pub fn exit(code: i32) -> (path: ExitPath)
    ensures
        path == (ExitPath::Leaving { code }),
{
    ExitPath::Leaving { code }
}

/// Leaving is final: one trap, the exit trap with the status, is issued;
/// after it the path is halted, asks for nothing, and stays halted whatever
/// is answered.
pub proof fn lemma_exit_is_terminal(code: i32, raw: isize, later: isize)
    ensures
        (ExitPath::Leaving { code }).spec_pending() == Some(
            Trap::One(SysCall::Exit, status_word(code)),
        ),
        (ExitPath::Leaving { code }).spec_resume(raw) == ExitPath::Halted,
        ExitPath::Halted.spec_pending() is None,
        ExitPath::Halted.spec_resume(later) == ExitPath::Halted,
{
}

/// Writes the bytes of `text` to the console. Read the answer with
/// [`status`].
pub fn print(text: ByteRange) -> (trap: Trap)
    ensures
        trap == Trap::Two(SysCall::Print, text.addr, text.len),
{
    Trap::Two(SysCall::Print, text.addr, text.len)
}

/// Asks for the identity of the calling process. Read the answer with
/// [`pid`].
pub fn getpid() -> (trap: Trap)
    ensures
        trap == Trap::Bare(SysCall::GetPid),
{
    Trap::Bare(SysCall::GetPid)
}

/// Suspends the caller for about `ms` milliseconds. Read the answer with
/// [`status`].
pub fn sleep_ms(ms: u32) -> (trap: Trap)
    ensures
        trap == Trap::One(SysCall::Sleep, ms as usize),
{
    Trap::One(SysCall::Sleep, ms as usize)
}

/// Asks for a region of at least `size` bytes. Read the answer with
/// [`region`].
pub fn malloc(size: usize) -> (trap: Trap)
    ensures
        trap == Trap::One(SysCall::Malloc, size),
{
    Trap::One(SysCall::Malloc, size)
}

/// Gives back the region at `addr`. Read the answer with [`status`].
pub fn free(addr: usize) -> (trap: Trap)
    ensures
        trap == Trap::One(SysCall::Free, addr),
{
    Trap::One(SysCall::Free, addr)
}

/// Sends the bytes of `msg` to the process `dest_pid`. Read the answer with
/// [`status`].
pub fn send_message(dest_pid: u32, msg: ByteRange) -> (trap: Trap)
    ensures
        trap == Trap::Three(SysCall::SendMessage, dest_pid as usize, msg.addr, msg.len),
{
    Trap::Three(SysCall::SendMessage, dest_pid as usize, msg.addr, msg.len)
}

/// Waits for a message and has it written into `buffer`. Read the answer
/// with [`receipt`].
pub fn receive_message(buffer: ByteRange) -> (trap: Trap)
    ensures
        trap == Trap::Two(SysCall::ReceiveMessage, buffer.addr, buffer.len),
{
    Trap::Two(SysCall::ReceiveMessage, buffer.addr, buffer.len)
}

/// The failure code in a negative answer: its low 32 bits, which on a 32-bit
/// word is the answer itself.
pub open spec fn failure_code(raw: isize) -> i32 {
    raw as i32
}

/// What [`status`] makes of an answer.
pub open spec fn status_of(raw: isize) -> Result<(), i32> {
    if raw >= 0 {
        Ok(())
    } else {
        Err(failure_code(raw))
    }
}

/// What [`pid`] makes of an answer: its low 32 bits.
pub open spec fn pid_of(raw: isize) -> u32 {
    raw as u32
}

/// What [`region`] makes of an answer.
pub open spec fn region_of(raw: isize) -> Result<usize, i32> {
    if raw > 0 {
        Ok(raw as usize)
    } else {
        Err(failure_code(raw))
    }
}

/// The sender packed into a non-negative answer: what stands above its low
/// 16 bits (cut to 32 bits where the word is wider than 48).
pub open spec fn sender_of(raw: isize) -> u32 {
    (raw / 0x1_0000) as u32
}

/// The payload length packed into a non-negative answer: its low 16 bits.
pub open spec fn length_of(raw: isize) -> usize {
    (raw % 0x1_0000) as usize
}

/// What [`receipt`] makes of an answer.
pub open spec fn receipt_of(raw: isize) -> Result<(u32, usize), i32> {
    if raw >= 0 {
        Ok((sender_of(raw), length_of(raw)))
    } else {
        Err(failure_code(raw))
    }
}

/// The answer that reports a message of `len` bytes from `sender`:
/// `(sender << 16) | len`.
pub open spec fn packed_receipt(sender: u32, len: usize) -> usize {
    ((sender as usize) << 16) | len
}

/// Reads the answer to a request that returns nothing but success or
/// failure.
pub fn status(raw: isize) -> (result: Result<(), i32>)
    ensures
        result == status_of(raw),
{
    if raw >= 0 {
        Ok(())
    } else {
        Err(#[verifier::truncate] (raw as i32))
    }
}

/// Reads the answer to [`getpid`], which has no failure.
pub fn pid(raw: isize) -> (pid: u32)
    ensures
        pid == pid_of(raw),
{
    #[verifier::truncate]
    (raw as u32)
}

/// Reads the answer to [`malloc`]: the address of the region, which is never
/// zero. An answer of zero is a failure with code zero.
pub fn region(raw: isize) -> (result: Result<usize, i32>)
    ensures
        result == region_of(raw),
        result matches Ok(addr) ==> addr != 0,
{
    if raw > 0 {
        Ok(raw as usize)
    } else {
        Err(#[verifier::truncate] (raw as i32))
    }
}

/// Reads the answer to [`receive_message`]: the sender and the number of
/// bytes received, which the kernel packs into one word.
pub fn receipt(raw: isize) -> (result: Result<(u32, usize), i32>)
    ensures
        result == receipt_of(raw),
        result matches Ok((_, len)) ==> len <= 0xFFFF,
        result matches Ok((sender, _)) ==> (raw <= 0xFFFF_FFFF ==> sender <= 0xFFFF),
{
    if raw >= 0 {
        let word: usize = raw as usize;
        let high: usize = word >> 16;
        let low: usize = word & 0xFFFF;
        assert(high == word / 0x1_0000) by (bit_vector)
            requires
                high == word >> 16,
        ;
        assert(low == word % 0x1_0000) by (bit_vector)
            requires
                low == word & 0xFFFF,
        ;
        Ok((#[verifier::truncate] (high as u32), low))
    } else {
        Err(#[verifier::truncate] (raw as i32))
    }
}

/// A non-negative answer is never read as a failure, whatever was asked;
/// only an allocation answered with zero fails. A negative answer is always
/// read as a failure.
pub proof fn lemma_success_is_kept(raw: isize)
    ensures
        raw >= 0 ==> status_of(raw) is Ok && receipt_of(raw) is Ok,
        raw > 0 ==> region_of(raw) is Ok,
        raw <= 0 ==> region_of(raw) is Err,
        raw < 0 ==> status_of(raw) is Err && receipt_of(raw) is Err,
        i32::MIN <= raw < 0 ==> status_of(raw) == Err::<(), i32>(raw as i32) && failure_code(raw) == raw,
{
}

/// A sender and a length of 16 bits each, packed into one answer, are read
/// back as they were. The packed word has to be an answer that reports
/// success, that is, it has to fit in the non-negative half of the word.
pub proof fn lemma_receipt_round_trip(sender: u32, len: usize)
    requires
        sender <= 0xFFFF,
        len <= 0xFFFF,
        packed_receipt(sender, len) <= isize::MAX,
    ensures
        receipt_of(packed_receipt(sender, len) as isize) == Ok::<(u32, usize), i32>((sender, len)),
{
    let wide: usize = sender as usize;
    let packed: usize = packed_receipt(sender, len);
    assert(packed == wide * 0x1_0000 + len) by (bit_vector)
        requires
            wide <= 0xFFFF,
            len <= 0xFFFF,
            packed == (wide << 16) | len,
    ;
}

} // verus!
