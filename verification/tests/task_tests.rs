use helium::config::MAX_APP_NUM;
use helium::sync::UPSafeCell;
use helium::task::{
    exited_and_run_next, run_first, suspend_and_run_next, Switch, TaskContxt, TaskManager,
    TaskStatus,
};

const RESTORE: usize = 0x8020_1000;

#[test]
fn new_manager_marks_apps_ready_and_rest_uninit() {
    let tm = TaskManager::new(3, RESTORE);
    assert_eq!(tm.app_num(), 3);
    assert_eq!(tm.current_id(), 0);
    for i in 0..3 {
        assert_eq!(tm.task_status(i), TaskStatus::Ready);
    }
    for i in 3..MAX_APP_NUM {
        assert_eq!(tm.task_status(i), TaskStatus::UnInit);
    }
}

#[test]
fn new_manager_contexts_resume_through_restore() {
    let mut tm = TaskManager::new(2, RESTORE);
    let cx = *tm.task_cx_mut(1);
    assert_eq!(cx.ra, RESTORE);
    assert_eq!(cx.sp, 0);
    assert_eq!(cx.s, [0; 12]);
    let blank = *tm.task_cx_mut(5);
    assert_eq!(blank.ra, 0);
}

#[test]
fn task_context_constructors() {
    let z = TaskContxt::new();
    assert_eq!((z.ra, z.sp, z.s), (0, 0, [0; 12]));
    let r = TaskContxt::restore(0x1234, 0x8000);
    assert_eq!((r.ra, r.sp, r.s), (0x1234, 0x8000, [0; 12]));
}

#[test]
fn run_first_starts_slot_zero() {
    let mut tm = TaskManager::new(3, RESTORE);
    assert_eq!(run_first(&mut tm), 0);
    assert_eq!(tm.task_status(0), TaskStatus::Runing);
    assert_eq!(tm.task_status(1), TaskStatus::Ready);
    assert_eq!(tm.current_id(), 0);
}

#[test]
fn yield_rotates_round_robin() {
    let mut tm = TaskManager::new(3, RESTORE);
    run_first(&mut tm);
    assert_eq!(suspend_and_run_next(&mut tm), Some(Switch { from: 0, to: 1 }));
    assert_eq!(tm.task_status(0), TaskStatus::Ready);
    assert_eq!(tm.task_status(1), TaskStatus::Runing);
    assert_eq!(tm.current_id(), 1);
    assert_eq!(suspend_and_run_next(&mut tm), Some(Switch { from: 1, to: 2 }));
    assert_eq!(suspend_and_run_next(&mut tm), Some(Switch { from: 2, to: 0 }));
    assert_eq!(tm.current_id(), 0);
}

#[test]
fn yield_with_single_app_switches_to_itself() {
    let mut tm = TaskManager::new(1, RESTORE);
    run_first(&mut tm);
    assert_eq!(suspend_and_run_next(&mut tm), Some(Switch { from: 0, to: 0 }));
    assert_eq!(tm.task_status(0), TaskStatus::Runing);
}

#[test]
fn exit_skips_exited_tasks_and_ends_with_none() {
    let mut tm = TaskManager::new(3, RESTORE);
    run_first(&mut tm);
    assert_eq!(exited_and_run_next(&mut tm), Some(Switch { from: 0, to: 1 }));
    assert_eq!(tm.task_status(0), TaskStatus::Exited);
    assert_eq!(suspend_and_run_next(&mut tm), Some(Switch { from: 1, to: 2 }));
    assert_eq!(exited_and_run_next(&mut tm), Some(Switch { from: 2, to: 1 }));
    assert_eq!(tm.task_status(2), TaskStatus::Exited);
    assert_eq!(exited_and_run_next(&mut tm), None);
    assert_eq!(tm.task_status(1), TaskStatus::Exited);
    assert_eq!(tm.current_id(), 1);
    for i in 0..3 {
        assert_eq!(tm.task_status(i), TaskStatus::Exited);
    }
}

#[test]
fn find_next_task_scans_cyclically_from_current() {
    let mut tm = TaskManager::new(4, RESTORE);
    run_first(&mut tm);
    // Every task but the current one is ready: the next slot is picked.
    assert_eq!(tm.find_next_task(), Some(1));
    tm.mark_current_exited();
    assert_eq!(tm.find_next_task(), Some(1));
    assert_eq!(tm.run_next_task(), Some(Switch { from: 0, to: 1 }));
    tm.mark_current_exited();
    assert_eq!(tm.run_next_task(), Some(Switch { from: 1, to: 2 }));
    tm.mark_current_supended();
    // Slot 3 comes before the current slot 2 in cyclic order.
    assert_eq!(tm.find_next_task(), Some(3));
}

#[test]
fn find_next_task_with_no_apps_finds_nothing() {
    let mut tm = TaskManager::new(0, RESTORE);
    assert_eq!(tm.find_next_task(), None);
    assert_eq!(tm.run_next_task(), None);
    assert_eq!(suspend_and_run_next(&mut tm), None);
}

#[test]
fn mark_current_changes_only_current() {
    let mut tm = TaskManager::new(2, RESTORE);
    run_first(&mut tm);
    tm.mark_current_supended();
    assert_eq!(tm.task_status(0), TaskStatus::Ready);
    assert_eq!(tm.task_status(1), TaskStatus::Ready);
    tm.mark_current_exited();
    assert_eq!(tm.task_status(0), TaskStatus::Exited);
    assert_eq!(tm.task_status(1), TaskStatus::Ready);
}

#[test]
fn saved_context_written_through_task_cx_mut_is_kept() {
    let mut tm = TaskManager::new(2, RESTORE);
    tm.task_cx_mut(1).sp = 0x9000;
    assert_eq!(tm.task_cx_mut(1).sp, 0x9000);
    assert_eq!(tm.task_cx_mut(1).ra, RESTORE);
    assert_eq!(tm.task_status(1), TaskStatus::Ready);
}

#[test]
fn upsafecell_read_after_write() {
    let mut cell = UPSafeCell::new(7u64);
    assert_eq!(*cell.get(), 7);
    *cell.access() = 11;
    assert_eq!(*cell.access(), 11);
    assert_eq!(*cell.get(), 11);
}

fn running_slots(tm: &TaskManager) -> Vec<usize> {
    (0..MAX_APP_NUM).filter(|&i| tm.task_status(i) == TaskStatus::Runing).collect()
}

#[test]
fn at_most_one_task_runs_and_it_is_current() {
    let mut tm = TaskManager::new(3, RESTORE);
    assert!(running_slots(&tm).is_empty());
    run_first(&mut tm);
    assert_eq!(running_slots(&tm), vec![tm.current_id()]);
    let steps: [bool; 7] = [false, true, false, false, true, false, true];
    for exit in steps {
        if exit {
            exited_and_run_next(&mut tm);
        } else {
            suspend_and_run_next(&mut tm);
        }
        let running = running_slots(&tm);
        assert!(running.len() <= 1);
        if let Some(&r) = running.first() {
            assert_eq!(r, tm.current_id());
        }
    }
}

#[test]
fn slots_past_the_apps_stay_uninit() {
    let mut tm = TaskManager::new(2, RESTORE);
    run_first(&mut tm);
    suspend_and_run_next(&mut tm);
    exited_and_run_next(&mut tm);
    suspend_and_run_next(&mut tm);
    exited_and_run_next(&mut tm);
    for i in 2..MAX_APP_NUM {
        assert_eq!(tm.task_status(i), TaskStatus::UnInit);
    }
}
