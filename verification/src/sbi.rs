use vstd::prelude::*;

use crate::ecall::Ecall;

verus! {

pub const SBI_SET_TIMER: usize = 0;
pub const SBI_CONSOLE_PUTCHAR: usize = 1;
pub const SBI_CONSOLE_GETCHAR: usize = 2;
pub const SBI_CLEAR_IPI: usize = 3;
pub const SBI_SEND_IPI: usize = 4;
pub const SBI_REMOTE_FENCE_I: usize = 5;
pub const SBI_REMOTE_SFENCE_VMA: usize = 6;
pub const SBI_REMOTE_SFENCE_VMA_ASID: usize = 7;
pub const SBI_SHUTDOWN: usize = 8;
pub const SYSCALL_EXIT: usize = 93;

/// The firmware call that prints character `c` on the console.
pub fn consle_putchar(c: usize) -> (call: Ecall)
    ensures
        call == (Ecall { which: SBI_CONSOLE_PUTCHAR, arg0: c, arg1: 0, arg2: 0 }),
{
    Ecall { which: SBI_CONSOLE_PUTCHAR, arg0: c, arg1: 0, arg2: 0 }
}

/// The firmware call that exits with `code`, sign-extended to the register
/// width.
pub fn exit(code: i32) -> (call: Ecall)
    ensures
        call == (Ecall { which: SYSCALL_EXIT, arg0: code as usize, arg1: 0, arg2: 0 }),
{
    Ecall { which: SYSCALL_EXIT, arg0: code as usize, arg1: 0, arg2: 0 }
}

/// The firmware calls that power the machine off, in order: the shutdown
/// request, then an exit with code 0.
pub fn shutdown() -> (calls: (Ecall, Ecall))
    ensures
        calls.0 == (Ecall { which: SBI_SHUTDOWN, arg0: 0, arg1: 0, arg2: 0 }),
        calls.1 == (Ecall { which: SYSCALL_EXIT, arg0: 0, arg1: 0, arg2: 0 }),
{
    (Ecall { which: SBI_SHUTDOWN, arg0: 0, arg1: 0, arg2: 0 }, exit(0))
}

} // verus!
