use helium::batch::{run_next_app, AppManager, BatchLoad};
use helium::config::{APP_BASE_ADDRESS, USER_STACK_SIZE};
use helium::loader::{AppLoad, KernelStack, UserStack};

#[test]
fn manager_reports_ranges_and_starts_at_zero() {
    let am = AppManager::new(&[0x100, 0x180, 0x300]);
    assert_eq!(am.current_app(), 0);
    assert_eq!(am.app_range(0), (0x100, 0x180));
    assert_eq!(am.app_range(1), (0x180, 0x300));
}

#[test]
fn load_app_uses_the_single_slot() {
    let am = AppManager::new(&[0x100, 0x180, 0x300]);
    assert_eq!(am.load_app(1), BatchLoad::Load(AppLoad { base: APP_BASE_ADDRESS, src_start: 0x180, len: 0x180 }));
    assert_eq!(am.load_app(2), BatchLoad::AllComplete);
    assert_eq!(am.load_app(9), BatchLoad::AllComplete);
}

#[test]
fn next_app_increments() {
    let mut am = AppManager::new(&[0x100, 0x180]);
    am.next_app();
    assert_eq!(am.current_app(), 1);
}

#[test]
fn run_next_app_walks_the_batch() {
    let mut am = AppManager::new(&[0x100, 0x180, 0x300]);
    let ks = KernelStack { data_addr: 0x8030_0000 };
    let us = UserStack { data_addr: 0x8031_0000 };
    let first = run_next_app(&mut am, &ks, &us, 0);
    assert_eq!(first.load, BatchLoad::Load(AppLoad { base: APP_BASE_ADDRESS, src_start: 0x100, len: 0x80 }));
    assert_eq!(first.cx.sepc, APP_BASE_ADDRESS);
    assert_eq!(first.cx.x[2], 0x8031_0000 + USER_STACK_SIZE);
    assert_eq!(first.cx_addr, ks.push_context());
    let second = run_next_app(&mut am, &ks, &us, 0);
    assert_eq!(second.load, BatchLoad::Load(AppLoad { base: APP_BASE_ADDRESS, src_start: 0x180, len: 0x180 }));
    let third = run_next_app(&mut am, &ks, &us, 0);
    assert_eq!(third.load, BatchLoad::AllComplete);
    assert_eq!(am.current_app(), 3);
}
