//! The trap interface: which services exist, under which numbers, and what
//! one crossing of the boundary carries.

use vstd::prelude::*;

verus! {

/// A kernel service. Kernel and user programs are built apart from each
/// other against the same numbering, so a number, once given, stays.
#[derive(Clone, Copy, Debug, PartialEq, Eq, Structural)]
pub enum SysCall {
    Exit,
    Print,
    Read,
    Write,
    GetPid,
    Sleep,
    Malloc,
    Free,
    SendMessage,
    ReceiveMessage,
}

impl SysCall {
    /// The number that names the service in the identifier register.
    pub open spec fn spec_number(self) -> u32 {
        match self {
            SysCall::Exit => 0,
            SysCall::Print => 1,
            SysCall::Read => 2,
            SysCall::Write => 3,
            SysCall::GetPid => 4,
            SysCall::Sleep => 5,
            SysCall::Malloc => 6,
            SysCall::Free => 7,
            SysCall::SendMessage => 8,
            SysCall::ReceiveMessage => 9,
        }
    }

    /// The number that names the service in the identifier register.
    pub fn number(self) -> (n: u32)
        ensures
            n == self.spec_number(),
    {
        match self {
            SysCall::Exit => 0,
            SysCall::Print => 1,
            SysCall::Read => 2,
            SysCall::Write => 3,
            SysCall::GetPid => 4,
            SysCall::Sleep => 5,
            SysCall::Malloc => 6,
            SysCall::Free => 7,
            SysCall::SendMessage => 8,
            SysCall::ReceiveMessage => 9,
        }
    }
}

/// The ten services take the numbers 0 to 9, and no two share one.
pub proof fn lemma_numbering(a: SysCall, b: SysCall)
    ensures
        a.spec_number() <= 9,
        a.spec_number() == b.spec_number() ==> a == b,
{
}

/// A run of bytes in the caller's memory, by address and length. The length
/// is part of every request that passes memory to the kernel.
#[derive(Clone, Copy, Debug, PartialEq, Eq, Structural)]
pub struct ByteRange {
    pub addr: usize,
    pub len: usize,
}

/// One crossing into the kernel: the service and its argument words, in
/// register order. The four shapes are distinct; a shape fixes which argument
/// registers are loaded. The kernel answers every trap with one signed word.
#[derive(Clone, Copy, Debug, PartialEq, Eq, Structural)]
pub enum Trap {
    Bare(SysCall),
    One(SysCall, usize),
    Two(SysCall, usize, usize),
    Three(SysCall, usize, usize, usize),
}

impl Trap {
    /// The service that the trap asks for.
    pub open spec fn spec_call(self) -> SysCall {
        match self {
            Trap::Bare(call) => call,
            Trap::One(call, _) => call,
            Trap::Two(call, _, _) => call,
            Trap::Three(call, _, _, _) => call,
        }
    }

    /// The service that the trap asks for.
    pub fn call(&self) -> (call: SysCall)
        ensures
            call == self.spec_call(),
    {
        match self {
            Trap::Bare(call) => *call,
            Trap::One(call, _) => *call,
            Trap::Two(call, _, _) => *call,
            Trap::Three(call, _, _, _) => *call,
        }
    }
}

} // verus!
