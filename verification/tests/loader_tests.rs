use helium::config::{APP_BASE_ADDRESS, APP_SIZE_LIMIT, KERNEL_STACK_SIZE, USER_STACK_SIZE};
use helium::loader::{
    get_base_i, init_app_cx, load_apps, AppLoad, KernelStack, KernelStackArray, UserStack,
    UserStackArray,
};
use helium::trap::TrapContext;

#[test]
fn base_addresses_of_slots() {
    assert_eq!(get_base_i(0), 0x8040_0000);
    assert_eq!(get_base_i(1), 0x8042_0000);
    assert_eq!(get_base_i(15), 0x805e_0000);
}

#[test]
fn slots_do_not_overlap() {
    for i in 0..16 {
        for j in (i + 1)..16 {
            assert!(get_base_i(i) + APP_SIZE_LIMIT <= get_base_i(j));
        }
    }
}

#[test]
fn stack_pointers_are_one_past_the_top() {
    let ks = KernelStack { data_addr: 0x8030_0000 };
    let us = UserStack { data_addr: 0x8031_0000 };
    assert_eq!(ks.get_sp(), 0x8030_0000 + KERNEL_STACK_SIZE);
    assert_eq!(us.get_sp(), 0x8031_0000 + USER_STACK_SIZE);
}

#[test]
fn pushed_context_ends_at_the_stack_pointer() {
    let ks = KernelStack { data_addr: 0x8030_0000 };
    let addr = ks.push_context();
    assert_eq!(addr + std::mem::size_of::<TrapContext>(), ks.get_sp());
    assert_eq!(addr, 0x8030_2000 - 34 * std::mem::size_of::<usize>());
}

#[test]
fn init_app_cx_enters_slot_on_own_stacks() {
    let ks = KernelStackArray { base: 0x8030_0000 };
    let us = UserStackArray { base: 0x8040_0000 - 16 * USER_STACK_SIZE };
    let (addr, cx) = init_app_cx(2, &ks, &us, 0x20);
    let own_kernel_stack = KernelStack { data_addr: 0x8030_0000 + 2 * KERNEL_STACK_SIZE };
    assert_eq!(addr, own_kernel_stack.push_context());
    assert_eq!(cx.sepc, APP_BASE_ADDRESS + 2 * APP_SIZE_LIMIT);
    assert_eq!(cx.x[2], us.base + 3 * USER_STACK_SIZE);
    assert_eq!(cx.sstatus, 0x20);
    assert_eq!(cx.x[10], 0);
}

#[test]
fn stack_arrays_give_each_app_its_own_stack() {
    let ks = KernelStackArray { base: 0x8030_0000 };
    let us = UserStackArray { base: 0x8038_0000 };
    assert_eq!(ks.get(0).data_addr, 0x8030_0000);
    assert_eq!(ks.get(3).data_addr, 0x8030_0000 + 3 * KERNEL_STACK_SIZE);
    assert_eq!(us.get(15).data_addr, 0x8038_0000 + 15 * USER_STACK_SIZE);
}

#[test]
fn contexts_of_different_apps_do_not_overlap() {
    let ks = KernelStackArray { base: 0x8030_0000 };
    let us = UserStackArray { base: 0x8038_0000 };
    let size = std::mem::size_of::<TrapContext>();
    for i in 0..16 {
        for j in (i + 1)..16 {
            let (ai, _) = init_app_cx(i, &ks, &us, 0);
            let (aj, _) = init_app_cx(j, &ks, &us, 0);
            assert_eq!(aj - ai, (j - i) * KERNEL_STACK_SIZE);
            assert!(ai + size <= aj);
        }
    }
}

#[test]
fn load_plan_follows_the_table() {
    let table = vec![0x8020_0000, 0x8020_0100, 0x8020_0100, 0x8020_0480];
    let plan = load_apps(&table[..]);
    assert_eq!(
        plan,
        vec![
            AppLoad { base: 0x8040_0000, src_start: 0x8020_0000, len: 0x100 },
            AppLoad { base: 0x8042_0000, src_start: 0x8020_0100, len: 0 },
            AppLoad { base: 0x8044_0000, src_start: 0x8020_0100, len: 0x380 },
        ]
    );
}

#[test]
fn load_plan_of_no_apps_is_empty() {
    assert!(load_apps(&[0x8020_0000]).is_empty());
}
