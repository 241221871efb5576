use helium::ecall::Ecall;
use helium::sbi::{consle_putchar, exit, shutdown};

#[test]
fn putchar_call() {
    assert_eq!(consle_putchar('A' as usize), Ecall { which: 1, arg0: 65, arg1: 0, arg2: 0 });
}

#[test]
fn exit_call_sign_extends() {
    assert_eq!(exit(2), Ecall { which: 93, arg0: 2, arg1: 0, arg2: 0 });
    assert_eq!(exit(-2).arg0, usize::MAX - 1);
}

#[test]
fn shutdown_then_exit_zero() {
    let (a, b) = shutdown();
    assert_eq!(a, Ecall { which: 8, arg0: 0, arg1: 0, arg2: 0 });
    assert_eq!(b, Ecall { which: 93, arg0: 0, arg1: 0, arg2: 0 });
}
