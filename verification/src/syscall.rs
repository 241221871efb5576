use vstd::prelude::*;

use crate::ecall::Ecall;
use crate::task::{
    exit_effect, exited_and_run_next, reschedule_spec, suspend_and_run_next, yield_effect, Switch,
    TaskManager, TaskStatus,
};
use crate::user::{exit_call, write_call, yield_call};

verus! {

/// Service number of `write`.
pub const SYSCALL_WRITE: usize = 64;

/// Service number of `exit`.
pub const SYSCALL_EXIT: usize = 93;

/// Service number of `yield`.
pub const SYSCALL_YIELD: usize = 124;

/// A system call the kernel serves, with its decoded arguments.
#[derive(Debug, Clone, Copy, PartialEq, Eq, Structural)]
pub enum Syscall {
    Write { fd: usize, buf: usize, len: usize },
    Exit { code: i32 },
    Yield,
}

/// What the kernel does for a system call, beyond the scheduling state it
/// has already updated.
///
/// `Write` leaves the write itself to the console driver, whose result
/// becomes the call's return value. `Exit` reports `code` and then switches
/// as `switch` says; with no switch there is no application left to run.
/// `Yield` switches as `switch` says and returns `ret` to the caller once it
/// runs again.
#[derive(Debug, Clone, Copy, PartialEq, Eq, Structural)]
pub enum SyscallAction {
    Write { fd: usize, buf: usize, len: usize },
    Exit { code: i32, switch: Option<Switch> },
    Yield { switch: Option<Switch>, ret: isize },
}

/// The system call that service number `id` with arguments `a0`, `a1`,
/// `a2` requests, or `None` for a number the kernel does not serve. The
/// exit code is the low 32 bits of `a0`.
pub open spec fn decode_spec(id: usize, a0: usize, a1: usize, a2: usize) -> Option<Syscall> {
    if id == SYSCALL_WRITE {
        Some(Syscall::Write { fd: a0, buf: a1, len: a2 })
    } else if id == SYSCALL_EXIT {
        Some(Syscall::Exit { code: a0 as i32 })
    } else if id == SYSCALL_YIELD {
        Some(Syscall::Yield)
    } else {
        None
    }
}

/// The system call that an environment call requests.
pub open spec fn decode_ecall(call: Ecall) -> Option<Syscall> {
    decode_spec(call.which, call.arg0, call.arg1, call.arg2)
}

/// What serving service number `id` with arguments `a0`, `a1`, `a2` does:
/// the action it yields, and the scheduler before and after.
pub open spec fn syscall_spec(
    old_tm: TaskManager,
    new_tm: TaskManager,
    id: usize,
    a0: usize,
    a1: usize,
    a2: usize,
    action: SyscallAction,
) -> bool {
    match decode_spec(id, a0, a1, a2) {
        Some(Syscall::Write { fd, buf, len }) => {
            &&& action == SyscallAction::Write { fd, buf, len }
            &&& new_tm == old_tm
        },
        Some(Syscall::Exit { code }) => {
            &&& action matches SyscallAction::Exit { code: c, switch }
            &&& c == code
            &&& reschedule_spec(old_tm, new_tm, TaskStatus::Exited, switch)
            &&& exit_effect(old_tm, new_tm, switch)
        },
        Some(Syscall::Yield) => {
            &&& action matches SyscallAction::Yield { switch, ret }
            &&& ret == 0
            &&& reschedule_spec(old_tm, new_tm, TaskStatus::Ready, switch)
            &&& yield_effect(old_tm, new_tm, switch)
        },
        None => false,
    }
}

/// Decodes service number `id` and its arguments.
pub fn decode_syscall(id: usize, args: &[usize; 3]) -> (call: Option<Syscall>)
    ensures
        call == decode_spec(id, args@[0], args@[1], args@[2]),
        id == 64 ==> call == Some(Syscall::Write { fd: args@[0], buf: args@[1], len: args@[2] }),
        id == 93 ==> call == Some(Syscall::Exit { code: args@[0] as i32 }),
        id == 124 ==> call == Some(Syscall::Yield),
        id != 64 && id != 93 && id != 124 ==> call is None,
{
    if id == SYSCALL_WRITE {
        Some(Syscall::Write { fd: args[0], buf: args[1], len: args[2] })
    } else if id == SYSCALL_EXIT {
        Some(Syscall::Exit { code: args[0] as i32 })
    } else if id == SYSCALL_YIELD {
        Some(Syscall::Yield)
    } else {
        None
    }
}

/// Ends the current application: it is marked exited and the hart goes to
/// the next ready application, if any.
pub fn sys_exit(tm: &mut TaskManager, code: i32) -> (action: SyscallAction)
    requires
        old(tm).wf(),
    ensures
        action matches SyscallAction::Exit { code: c, switch } && c == code && reschedule_spec(
            *old(tm),
            *final(tm),
            TaskStatus::Exited,
            switch,
        ) && exit_effect(*old(tm), *final(tm), switch),
{
    let switch = exited_and_run_next(tm);
    SyscallAction::Exit { code, switch }
}

/// Gives up the hart: the current application is suspended, the next ready
/// one runs, and the caller sees 0 once it is resumed.
pub fn sys_yield(tm: &mut TaskManager) -> (action: SyscallAction)
    requires
        old(tm).wf(),
    ensures
        action matches SyscallAction::Yield { switch, ret } && ret == 0 && reschedule_spec(
            *old(tm),
            *final(tm),
            TaskStatus::Ready,
            switch,
        ) && yield_effect(*old(tm), *final(tm), switch),
{
    let switch = suspend_and_run_next(tm);
    SyscallAction::Yield { switch, ret: 0 }
}

/// Serves system call `id` with arguments `args`.
///
/// A write is handed to the console driver with the scheduler untouched;
/// an exit and a yield reschedule as `sys_exit` and `sys_yield` say. The
/// kernel serves no other number.
pub fn syscall(tm: &mut TaskManager, id: usize, args: [usize; 3]) -> (action: SyscallAction)
    requires
        old(tm).wf(),
        decode_spec(id, args@[0], args@[1], args@[2]) is Some,
    ensures
        syscall_spec(*old(tm), *final(tm), id, args@[0], args@[1], args@[2], action),
{
    match decode_syscall(id, &args) {
        Some(Syscall::Write { fd, buf, len }) => SyscallAction::Write { fd, buf, len },
        Some(Syscall::Exit { code }) => sys_exit(tm, code),
        Some(Syscall::Yield) => sys_yield(tm),
        None => {
            proof {
                assert(false);
            }
            SyscallAction::Yield { switch: None, ret: 0 }
        },
    }
}

/// The application calls and the kernel's decoding agree: every call an
/// application makes is one the kernel serves, and it decodes to the same
/// request with the same arguments; an exit code in particular comes back
/// unchanged through its sign extension and truncation.
pub proof fn lemma_calls_decode_to_themselves(
    fd: usize,
    buffer_addr: usize,
    buffer_len: usize,
    code: i32,
)
    ensures
        decode_ecall(write_call(fd, buffer_addr, buffer_len)) == Some(
            Syscall::Write { fd, buf: buffer_addr, len: buffer_len },
        ),
        decode_ecall(exit_call(code)) == Some(Syscall::Exit { code }),
        decode_ecall(yield_call()) == Some(Syscall::Yield),
{
    assert(((code as usize) as i32) == code) by (bit_vector);
}

/// What the kernel decodes, for every register value: service 64 is a
/// write of `a2` bytes at address `a1` to descriptor `a0`; service 93 is an
/// exit whose code is the low 32 bits of `a0`, so a code sign-extended into
/// `a0` comes back as itself; service 124 is a yield; nothing else is
/// served.
pub proof fn lemma_decoding(id: usize, a0: usize, a1: usize, a2: usize, code: i32)
    ensures
        decode_spec(64, a0, a1, a2) == Some(Syscall::Write { fd: a0, buf: a1, len: a2 }),
        decode_spec(93, a0, a1, a2) == Some(Syscall::Exit { code: a0 as i32 }),
        decode_spec(93, code as usize, a1, a2) == Some(Syscall::Exit { code }),
        decode_spec(124, a0, a1, a2) == Some(Syscall::Yield),
        id != 64 && id != 93 && id != 124 ==> decode_spec(id, a0, a1, a2) is None,
{
    assert(((code as usize) as i32) == code) by (bit_vector);
}

/// An exit call made by an application reaches the kernel with its code
/// unchanged, and the calling task ends exited; any task switched to was
/// ready and now runs.
pub proof fn lemma_exit_call_served(
    old_tm: TaskManager,
    new_tm: TaskManager,
    code: i32,
    action: SyscallAction,
)
    requires
        syscall_spec(
            old_tm,
            new_tm,
            exit_call(code).which,
            exit_call(code).arg0,
            exit_call(code).arg1,
            exit_call(code).arg2,
            action,
        ),
    ensures
        action matches SyscallAction::Exit { code: c, switch } && c == code && exit_effect(
            old_tm,
            new_tm,
            switch,
        ),
{
    lemma_calls_decode_to_themselves(0, 0, 0, code);
}

/// A yield call made by an application is served as a yield whose return
/// value is 0, and a switch happens whenever there is an application.
pub proof fn lemma_yield_call_served(old_tm: TaskManager, new_tm: TaskManager, action: SyscallAction)
    requires
        syscall_spec(
            old_tm,
            new_tm,
            yield_call().which,
            yield_call().arg0,
            yield_call().arg1,
            yield_call().arg2,
            action,
        ),
    ensures
        action matches SyscallAction::Yield { switch, ret } && ret == 0 && yield_effect(
            old_tm,
            new_tm,
            switch,
        ),
{
}

} // verus!
