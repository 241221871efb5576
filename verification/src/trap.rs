use vstd::prelude::*;

use crate::syscall::{decode_spec, syscall, syscall_spec, SyscallAction};
use crate::task::TaskManager;

verus! {

/// The registers of an application saved on trap entry: the general
/// registers `x0`..`x31`, the bits of the supervisor status register and
/// the trapping pc.
pub struct TrapContext {
    pub x: [usize; 32],
    pub sstatus: usize,
    pub sepc: usize,
}

/// The cause of a trap as far as the handler tells causes apart.
#[derive(Debug, Clone, Copy, PartialEq, Eq, Structural)]
pub enum TrapCause {
    UserEnvCall,
    StoreFault,
    StorePageFault,
    IllegalInstruction,
    Unsupported,
}

/// What the handler leaves to be done for a trap.
///
/// `Syscall` carries the action of the system call served. `StoreFault`
/// and `IllegalInstruction` are reported, and the application resumes at
/// the faulting instruction.
#[derive(Debug, Clone, Copy, PartialEq, Eq, Structural)]
pub enum TrapAction {
    Syscall(SyscallAction),
    StoreFault,
    IllegalInstruction,
}

impl TrapContext {
    /// Sets the stack pointer `x2`.
    pub fn set_sp(&mut self, sp: usize)
        ensures
            final(self).x@ == old(self).x@.update(2, sp),
            final(self).sstatus == old(self).sstatus,
            final(self).sepc == old(self).sepc,
    {
        self.x[2] = sp;
    }

    /// Puts the return value `ret` of a system call in `a0`, as the
    /// register holds it: two's complement at the register width.
    pub fn set_return_value(&mut self, ret: isize)
        ensures
            final(self).x@ == old(self).x@.update(10, ret as usize),
            final(self).sstatus == old(self).sstatus,
            final(self).sepc == old(self).sepc,
    {
        self.x[10] = ret as usize;
    }

    /// The context in which an application starts: at `sepc`, on stack
    /// `sp`, with status `sstatus` and every other register zero.
    pub fn app_init_context(sepc: usize, sp: usize, sstatus: usize) -> (cx: Self)
        ensures
            cx.sepc == sepc,
            cx.sstatus == sstatus,
            forall|i: int| 0 <= i < 32 ==> #[trigger] cx.x@[i] == if i == 2 { sp } else { 0 },
    {
        let mut cx = TrapContext { x: [0; 32], sstatus, sepc };
        cx.set_sp(sp);
        cx
    }
}

/// Handles a trap of cause `cause` taken with the application registers
/// `cx`.
///
/// An environment call resumes after the `ecall` instruction and is served
/// as the system call in `a7` with arguments `a0`..`a2`; a yield puts its
/// return value 0 in `a0`. Store faults and illegal instructions are
/// reported and change nothing. The handler serves no other cause and no
/// other system call.
pub fn trap_handler(tm: &mut TaskManager, cx: &mut TrapContext, cause: TrapCause) -> (action:
    TrapAction)
    requires
        old(tm).wf(),
        cause != TrapCause::Unsupported,
        cause == TrapCause::UserEnvCall ==> {
            &&& decode_spec(old(cx).x@[17], old(cx).x@[10], old(cx).x@[11], old(cx).x@[12]) is Some
            &&& old(cx).sepc + 4 <= usize::MAX
        },
    ensures
        final(cx).sstatus == old(cx).sstatus,
        match cause {
            TrapCause::UserEnvCall => {
                &&& action matches TrapAction::Syscall(sa)
                &&& syscall_spec(
                    *old(tm),
                    *final(tm),
                    old(cx).x@[17],
                    old(cx).x@[10],
                    old(cx).x@[11],
                    old(cx).x@[12],
                    sa,
                )
                &&& final(cx).sepc == old(cx).sepc + 4
                &&& final(cx).x@ == if sa is Yield {
                    old(cx).x@.update(10, 0)
                } else {
                    old(cx).x@
                }
            },
            TrapCause::StoreFault | TrapCause::StorePageFault => {
                &&& action == TrapAction::StoreFault
                &&& *final(tm) == *old(tm)
                &&& final(cx).x@ == old(cx).x@
                &&& final(cx).sepc == old(cx).sepc
            },
            TrapCause::IllegalInstruction => {
                &&& action == TrapAction::IllegalInstruction
                &&& *final(tm) == *old(tm)
                &&& final(cx).x@ == old(cx).x@
                &&& final(cx).sepc == old(cx).sepc
            },
            TrapCause::Unsupported => false,
        },
{
    match cause {
        TrapCause::UserEnvCall => {
            cx.sepc = cx.sepc + 4;
            let args = [cx.x[10], cx.x[11], cx.x[12]];
            let sa = syscall(tm, cx.x[17], args);
            if let SyscallAction::Yield { ret, .. } = sa {
                cx.set_return_value(ret);
            }
            TrapAction::Syscall(sa)
        },
        TrapCause::StoreFault | TrapCause::StorePageFault => TrapAction::StoreFault,
        TrapCause::IllegalInstruction => TrapAction::IllegalInstruction,
        TrapCause::Unsupported => {
            proof {
                assert(false);
            }
            TrapAction::IllegalInstruction
        },
    }
}

} // verus!
