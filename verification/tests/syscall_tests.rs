use helium::ecall::Ecall;
use helium::syscall::{decode_syscall, sys_exit, sys_yield, syscall, Syscall, SyscallAction};
use helium::task::{run_first, Switch, TaskManager, TaskStatus};
use helium::user;

fn decode(call: Ecall) -> Option<Syscall> {
    decode_syscall(call.which, &[call.arg0, call.arg1, call.arg2])
}

#[test]
fn user_calls_use_the_abi_numbers() {
    assert_eq!(user::sys_write(1, 0x1000, 12), Ecall { which: 64, arg0: 1, arg1: 0x1000, arg2: 12 });
    assert_eq!(user::sys_exit(3), Ecall { which: 93, arg0: 3, arg1: 0, arg2: 0 });
    assert_eq!(user::sys_yield(), Ecall { which: 124, arg0: 0, arg1: 0, arg2: 0 });
}

#[test]
fn negative_exit_code_is_sign_extended() {
    assert_eq!(user::sys_exit(-1).arg0, usize::MAX);
}

#[test]
fn user_calls_decode_to_themselves() {
    assert_eq!(decode(user::sys_write(1, 0xdead, 5)), Some(Syscall::Write { fd: 1, buf: 0xdead, len: 5 }));
    for code in [0, 1, -1, i32::MIN, i32::MAX, 42] {
        assert_eq!(decode(user::sys_exit(code)), Some(Syscall::Exit { code }));
    }
    assert_eq!(decode(user::sys_yield()), Some(Syscall::Yield));
}

#[test]
fn exit_code_is_the_low_32_bits() {
    assert_eq!(decode_syscall(93, &[0x1_0000_0005, 0, 0]), Some(Syscall::Exit { code: 5 }));
}

#[test]
fn unknown_syscall_is_not_served() {
    assert_eq!(decode_syscall(0, &[1, 2, 3]), None);
    assert_eq!(decode_syscall(63, &[1, 2, 3]), None);
    assert_eq!(decode_syscall(125, &[0, 0, 0]), None);
}

#[test]
fn syscall_write_leaves_scheduler_alone() {
    let mut tm = TaskManager::new(2, 0);
    run_first(&mut tm);
    let action = syscall(&mut tm, 64, [1, 0x4000, 9]);
    assert_eq!(action, SyscallAction::Write { fd: 1, buf: 0x4000, len: 9 });
    assert_eq!(tm.current_id(), 0);
    assert_eq!(tm.task_status(0), TaskStatus::Runing);
}

#[test]
fn syscall_yield_switches_and_returns_zero() {
    let mut tm = TaskManager::new(2, 0);
    run_first(&mut tm);
    let action = syscall(&mut tm, 124, [0, 0, 0]);
    assert_eq!(action, SyscallAction::Yield { switch: Some(Switch { from: 0, to: 1 }), ret: 0 });
    assert_eq!(tm.task_status(0), TaskStatus::Ready);
}

#[test]
fn syscall_exit_marks_exited() {
    let mut tm = TaskManager::new(2, 0);
    run_first(&mut tm);
    let action = syscall(&mut tm, 93, [7, 0, 0]);
    assert_eq!(action, SyscallAction::Exit { code: 7, switch: Some(Switch { from: 0, to: 1 }) });
    assert_eq!(tm.task_status(0), TaskStatus::Exited);
    assert_eq!(tm.task_status(1), TaskStatus::Runing);
}

#[test]
fn last_exit_has_nowhere_to_switch() {
    let mut tm = TaskManager::new(1, 0);
    run_first(&mut tm);
    assert_eq!(sys_exit(&mut tm, -3), SyscallAction::Exit { code: -3, switch: None });
}

#[test]
fn sys_yield_with_one_app_resumes_it() {
    let mut tm = TaskManager::new(1, 0);
    run_first(&mut tm);
    assert_eq!(sys_yield(&mut tm), SyscallAction::Yield { switch: Some(Switch { from: 0, to: 0 }), ret: 0 });
}
