use mtos_runtime::facade::{
    exit, free, getpid, malloc, pid, print, receipt, receive_message, region, send_message, sleep_ms, status,
    ExitPath,
};
use mtos_runtime::syscall::{ByteRange, SysCall, Trap};

fn stub_kernel(answer: isize) -> impl Fn(Trap) -> isize {
    move |_trap| answer
}

#[test]
fn service_numbers_are_fixed() {
    assert_eq!(SysCall::Exit.number(), 0);
    assert_eq!(SysCall::Print.number(), 1);
    assert_eq!(SysCall::Read.number(), 2);
    assert_eq!(SysCall::Write.number(), 3);
    assert_eq!(SysCall::GetPid.number(), 4);
    assert_eq!(SysCall::Sleep.number(), 5);
    assert_eq!(SysCall::Malloc.number(), 6);
    assert_eq!(SysCall::Free.number(), 7);
    assert_eq!(SysCall::SendMessage.number(), 8);
    assert_eq!(SysCall::ReceiveMessage.number(), 9);
}

#[test]
fn every_trap_shape_names_its_service() {
    assert_eq!(Trap::Bare(SysCall::GetPid).call(), SysCall::GetPid);
    assert_eq!(Trap::One(SysCall::Sleep, 5).call(), SysCall::Sleep);
    assert_eq!(Trap::Two(SysCall::Print, 5, 6).call(), SysCall::Print);
    assert_eq!(Trap::Three(SysCall::SendMessage, 5, 6, 7).call(), SysCall::SendMessage);
}

#[test]
fn requests_use_the_trap_of_their_service() {
    assert_eq!(print(ByteRange { addr: 0x2000, len: 12 }), Trap::Two(SysCall::Print, 0x2000, 12));
    assert_eq!(getpid(), Trap::Bare(SysCall::GetPid));
    assert_eq!(sleep_ms(200), Trap::One(SysCall::Sleep, 200));
    assert_eq!(malloc(256), Trap::One(SysCall::Malloc, 256));
    assert_eq!(free(0x1000), Trap::One(SysCall::Free, 0x1000));
    assert_eq!(
        send_message(7, ByteRange { addr: 0x3000, len: 5 }),
        Trap::Three(SysCall::SendMessage, 7, 0x3000, 5)
    );
    assert_eq!(
        receive_message(ByteRange { addr: 0x4000, len: 64 }),
        Trap::Two(SysCall::ReceiveMessage, 0x4000, 64)
    );
}

#[test]
fn exit_status_fills_the_word() {
    assert_eq!(exit(0).pending(), Some(Trap::One(SysCall::Exit, 0)));
    assert_eq!(exit(3).pending(), Some(Trap::One(SysCall::Exit, 3)));
    assert_eq!(exit(i32::MAX).pending(), Some(Trap::One(SysCall::Exit, i32::MAX as usize)));
    assert_eq!(exit(-1).pending(), Some(Trap::One(SysCall::Exit, usize::MAX)));
    assert_eq!(exit(-2).pending(), Some(Trap::One(SysCall::Exit, usize::MAX - 1)));
    assert_eq!(exit(i32::MIN).pending(), Some(Trap::One(SysCall::Exit, i32::MIN as usize)));
}

#[test]
fn nothing_is_asked_for_after_exit() {
    let mut path = exit(7);
    assert_eq!(path, ExitPath::Leaving { code: 7 });
    let mut traps = Vec::new();
    while let Some(trap) = path.pending() {
        traps.push(trap);
        path = path.resume(0);
    }
    assert_eq!(traps, vec![Trap::One(SysCall::Exit, 7)]);
    for raw in [0isize, 1, -1, isize::MAX, isize::MIN] {
        path = path.resume(raw);
        assert_eq!(path, ExitPath::Halted);
        assert_eq!(path.pending(), None);
    }
}

#[test]
fn exit_halts_whatever_the_kernel_answers() {
    for raw in [0isize, 1, -1, isize::MAX, isize::MIN] {
        assert_eq!(exit(0).resume(raw), ExitPath::Halted);
        assert_eq!(exit(-1).resume(raw), ExitPath::Halted);
    }
}

#[test]
fn status_of_an_answer() {
    assert_eq!(status(0), Ok(()));
    assert_eq!(status(1), Ok(()));
    assert_eq!(status(isize::MAX), Ok(()));
    assert_eq!(status(-1), Err(-1));
    assert_eq!(status(-5), Err(-5));
    assert_eq!(status(i32::MIN as isize), Err(i32::MIN));
}

#[test]
fn pid_of_an_answer() {
    assert_eq!(pid(0), 0);
    assert_eq!(pid(42), 42);
    assert_eq!(pid(-1), u32::MAX);
}

#[test]
fn malloc_against_a_kernel_that_gives_a_region() {
    let kernel = stub_kernel(0x1000);
    assert_eq!(region(kernel(malloc(256))), Ok(0x1000));
    let kernel = stub_kernel(0);
    assert_eq!(status(kernel(free(0x1000))), Ok(()));
}

#[test]
fn malloc_against_a_kernel_that_refuses() {
    let kernel = stub_kernel(-5);
    assert_eq!(region(kernel(malloc(256))), Err(-5));
}

#[test]
fn malloc_answered_with_zero_is_a_failure() {
    assert_eq!(region(0), Err(0));
    assert_eq!(region(1), Ok(1));
}

#[test]
fn receipt_unpacks_sender_and_length() {
    assert_eq!(receipt(0), Ok((0, 0)));
    assert_eq!(receipt((3 << 16) | 5), Ok((3, 5)));
    assert_eq!(receipt(0xFFFF), Ok((0, 0xFFFF)));
    assert_eq!(receipt(0x1_0000), Ok((1, 0)));
    assert_eq!(receipt((0x7FFF << 16) | 0xFFFF), Ok((0x7FFF, 0xFFFF)));
    assert_eq!(receipt(-3), Err(-3));
}

#[test]
fn receipt_of_a_full_32_bit_word() {
    if usize::BITS > 32 {
        let raw = 0xFFFF_FFFFu32 as isize;
        assert_eq!(receipt(raw), Ok((0xFFFF, 0xFFFF)));
    } else {
        assert_eq!(receipt(isize::MAX), Ok((0x7FFF, 0xFFFF)));
    }
}

#[test]
fn receipt_round_trip_over_the_sixteen_bit_fields() {
    let senders = [0usize, 1, 2, 255, 256, 0x7FFF, 0x8000, 0xFFFE, 0xFFFF];
    let lengths = [0usize, 1, 2, 255, 256, 0x7FFF, 0x8000, 0xFFFE, 0xFFFF];
    for s in senders {
        for l in lengths {
            let packed = (s << 16) | l;
            if packed <= isize::MAX as usize {
                assert_eq!(receipt(packed as isize), Ok((s as u32, l)));
            }
        }
    }
}

#[test]
fn a_kernel_that_always_succeeds_makes_every_request_succeed() {
    let kernel = stub_kernel(0);
    assert_eq!(status(kernel(print(ByteRange { addr: 16, len: 4 }))), Ok(()));
    assert_eq!(status(kernel(sleep_ms(10))), Ok(()));
    assert_eq!(status(kernel(free(16))), Ok(()));
    assert_eq!(status(kernel(send_message(1, ByteRange { addr: 16, len: 4 }))), Ok(()));
    assert_eq!(receipt(kernel(receive_message(ByteRange { addr: 16, len: 4 }))), Ok((0, 0)));
    assert_eq!(pid(kernel(getpid())), 0);
    let kernel = stub_kernel(0x8000);
    assert_eq!(region(kernel(malloc(1))), Ok(0x8000));
}

#[test]
fn no_failure_is_made_up_for_a_non_negative_answer() {
    for raw in [0isize, 1, 2, 0xFFFF, 0x1_0000, 0x7FFF_FFFF, isize::MAX] {
        assert!(status(raw).is_ok());
        assert!(receipt(raw).is_ok());
        assert_eq!(region(raw).is_ok(), raw != 0);
    }
    for raw in [-1isize, -2, -5, -0x7FFF_FFFF, i32::MIN as isize] {
        assert_eq!(status(raw), Err(raw as i32));
        assert_eq!(region(raw), Err(raw as i32));
        assert_eq!(receipt(raw), Err(raw as i32));
    }
}
