use vstd::prelude::*;

use crate::ecall::Ecall;

verus! {

/// Service number of `write` in the application ABI.
pub const SYS_WRITE: usize = 64;

/// Service number of `exit` in the application ABI.
pub const SYS_EXIT: usize = 93;

/// Service number of `yield` in the application ABI.
pub const SYS_YIELD: usize = 124;

/// The call an application makes to write `buffer_len` bytes starting at
/// address `buffer_addr` to file descriptor `fd`.
pub open spec fn write_call(fd: usize, buffer_addr: usize, buffer_len: usize) -> Ecall {
    Ecall { which: SYS_WRITE, arg0: fd, arg1: buffer_addr, arg2: buffer_len }
}

/// The call an application makes to exit with `code`: the code travels
/// sign-extended to the register width.
pub open spec fn exit_call(code: i32) -> Ecall {
    Ecall { which: SYS_EXIT, arg0: code as usize, arg1: 0, arg2: 0 }
}

/// The call an application makes to give up the hart.
pub open spec fn yield_call() -> Ecall {
    Ecall { which: SYS_YIELD, arg0: 0, arg1: 0, arg2: 0 }
}

/// Asks the kernel to write the `buffer_len` bytes at `buffer_addr` to
/// file descriptor `fd`.
pub fn sys_write(fd: usize, buffer_addr: usize, buffer_len: usize) -> (call: Ecall)
    ensures
        call == write_call(fd, buffer_addr, buffer_len),
        call == (Ecall { which: 64, arg0: fd, arg1: buffer_addr, arg2: buffer_len }),
{
    Ecall { which: SYS_WRITE, arg0: fd, arg1: buffer_addr, arg2: buffer_len }
}

/// Asks the kernel to end the application with exit code `code`.
pub fn sys_exit(code: i32) -> (call: Ecall)
    ensures
        call == exit_call(code),
        call == (Ecall { which: 93, arg0: code as usize, arg1: 0, arg2: 0 }),
{
    Ecall { which: SYS_EXIT, arg0: code as usize, arg1: 0, arg2: 0 }
}

/// Asks the kernel to run another application for a while.
pub fn sys_yield() -> (call: Ecall)
    ensures
        call == yield_call(),
        call == (Ecall { which: 124, arg0: 0, arg1: 0, arg2: 0 }),
{
    Ecall { which: SYS_YIELD, arg0: 0, arg1: 0, arg2: 0 }
}

/// The registers of each application call, for every argument: a write
/// puts the descriptor, the buffer address and the length in `a0`, `a1`,
/// `a2` under service 64; an exit puts the code, sign-extended, in `a0`
/// under service 93, so that its low 32 bits are the code again; a yield is
/// service 124 with zero arguments.
pub proof fn lemma_call_registers(fd: usize, buffer_addr: usize, buffer_len: usize, code: i32)
    ensures
        write_call(fd, buffer_addr, buffer_len) == (Ecall {
            which: 64,
            arg0: fd,
            arg1: buffer_addr,
            arg2: buffer_len,
        }),
        exit_call(code) == (Ecall { which: 93, arg0: code as usize, arg1: 0, arg2: 0 }),
        (exit_call(code).arg0 as i32) == code,
        yield_call() == (Ecall { which: 124, arg0: 0, arg1: 0, arg2: 0 }),
{
    assert(((code as usize) as i32) == code) by (bit_vector);
}

} // verus!
