use kernel_core::process::{ProcessManager, ProcessState};

#[test]
fn create_init_process_assigns_pid_one() {
    let mut pm = ProcessManager::new();
    assert_eq!(pm.create_init_process(0x8000), Some(1));
    let init = pm.get_process(1).expect("init process exists");
    assert_eq!(init.pid, 1);
    assert_eq!(init.ppid, 0);
    assert_eq!(init.entry_point, 0x8000);
    assert!(matches!(init.state, ProcessState::Ready));
    assert_eq!(init.time_slice, 10);
    assert_eq!(init.used_time, 0);
}

#[test]
fn pids_are_assigned_monotonically() {
    let mut pm = ProcessManager::new();
    assert_eq!(pm.create_init_process(0x8000), Some(1));
    assert_eq!(pm.create_process(0x9000, 1), Some(2));
    assert_eq!(pm.create_process(0xA000, 1), Some(3));
    assert_eq!(pm.list_processes().len(), 3);
}

#[test]
fn stack_pointer_is_derived_from_pid() {
    let mut pm = ProcessManager::new();
    pm.create_init_process(0x8000);
    pm.create_process(0x9000, 1);
    assert_eq!(pm.get_process(1).unwrap().stack_ptr, 0x400000 + 0x100000);
    assert_eq!(pm.get_process(2).unwrap().stack_ptr, 0x400000 + 2 * 0x100000);
}

#[test]
fn table_full_rejects_creation() {
    let mut pm = ProcessManager::new();
    assert_eq!(pm.create_init_process(0x8000), Some(1));
    for i in 1..64u32 {
        assert_eq!(pm.create_process(0x9000, 1), Some(i + 1));
    }
    assert_eq!(pm.create_process(0x9000, 1), None);
    assert_eq!(pm.list_processes().len(), 64);
}

#[test]
fn round_robin_visits_each_pid_exactly_once() {
    // Four processes, all Ready with equal slices: four scheduler steps
    // return each pid exactly once before any repeats.
    let mut pm = ProcessManager::new();
    pm.create_init_process(0x8000);
    pm.create_process(0x9000, 1);
    pm.create_process(0xA000, 1);
    pm.create_process(0xB000, 1);

    let mut seen = vec![];
    for _ in 0..4 {
        let pid = pm.schedule().expect("a process is ready");
        assert!(!seen.contains(&pid), "pid {} scheduled twice in one round", pid);
        seen.push(pid);
    }
    seen.sort();
    assert_eq!(seen, vec![1, 2, 3, 4]);
}

#[test]
fn round_robin_order_follows_table_order() {
    // The scan starts after the current process's index and wraps.
    let mut pm = ProcessManager::new();
    pm.create_init_process(0x8000);
    pm.create_process(0x9000, 1);
    pm.create_process(0xA000, 1);
    assert_eq!(pm.schedule(), Some(2));
    assert_eq!(pm.schedule(), Some(3));
    assert_eq!(pm.schedule(), Some(1));
}

#[test]
fn quota_is_enforced_exactly_at_the_slice() {
    // A lone process keeps the CPU for its whole ten-tick slice, is demoted
    // exactly when its used time reaches the slice, and is then re-elected.
    let mut pm = ProcessManager::new();
    pm.create_init_process(0x8000);
    assert_eq!(pm.schedule(), Some(1));
    for tick in 1..=9u32 {
        assert_eq!(pm.schedule(), None, "yielded early at tick {}", tick);
        assert_eq!(pm.get_process(1).unwrap().used_time, tick);
        assert!(matches!(pm.get_process(1).unwrap().state, ProcessState::Running));
    }
    // The tenth charged tick exhausts the quota: demotion, reset, re-election.
    assert_eq!(pm.schedule(), Some(1));
    assert_eq!(pm.get_process(1).unwrap().used_time, 0);
}

#[test]
fn sleeping_processes_are_skipped() {
    let mut pm = ProcessManager::new();
    pm.create_init_process(0x8000);
    pm.create_process(0x9000, 1);
    assert!(pm.set_process_state(1, ProcessState::Sleeping));
    assert_eq!(pm.schedule(), Some(2));
    // Only pid 2 is ever runnable until pid 1 is continued.
    for _ in 0..20 {
        let r = pm.schedule();
        assert!(r == None || r == Some(2));
    }
}

#[test]
fn schedule_on_empty_table_returns_none() {
    let mut pm = ProcessManager::new();
    assert_eq!(pm.schedule(), None);
}

#[test]
fn terminate_reparents_children_to_init() {
    let mut pm = ProcessManager::new();
    pm.create_init_process(0x8000);
    pm.create_process(0x9000, 1); // pid 2
    pm.create_process(0xA000, 2); // pid 3, child of 2
    pm.create_process(0xB000, 2); // pid 4, child of 2
    pm.create_process(0xC000, 3); // pid 5, child of 3

    assert!(pm.terminate_process(2));
    assert!(matches!(pm.get_process(2).unwrap().state, ProcessState::Terminated));
    assert_eq!(pm.get_process(3).unwrap().ppid, 1);
    assert_eq!(pm.get_process(4).unwrap().ppid, 1);
    // An unrelated child keeps its parent, and init is untouched.
    assert_eq!(pm.get_process(5).unwrap().ppid, 3);
    assert!(matches!(pm.get_process(1).unwrap().state, ProcessState::Ready));
    // Pids never change.
    assert_eq!(pm.get_process(3).unwrap().pid, 3);
}

#[test]
fn terminate_unknown_pid_is_rejected() {
    let mut pm = ProcessManager::new();
    pm.create_init_process(0x8000);
    assert!(!pm.terminate_process(99));
    assert!(!pm.terminate_process(0));
}

#[test]
fn set_process_state_overwrites_and_reports_lookup() {
    let mut pm = ProcessManager::new();
    pm.create_init_process(0x8000);
    assert!(pm.set_process_state(1, ProcessState::Sleeping));
    assert!(matches!(pm.get_process(1).unwrap().state, ProcessState::Sleeping));
    assert!(!pm.set_process_state(7, ProcessState::Ready));
}

#[test]
fn current_pid_tracks_the_elected_process() {
    let mut pm = ProcessManager::new();
    assert_eq!(pm.current_pid(), 0);
    pm.create_init_process(0x8000);
    pm.schedule();
    assert_eq!(pm.current_pid(), 1);
}

#[test]
fn terminated_processes_are_never_scheduled() {
    let mut pm = ProcessManager::new();
    pm.create_init_process(0x8000);
    pm.create_process(0x9000, 1);
    assert!(pm.terminate_process(2));
    for _ in 0..25 {
        let r = pm.schedule();
        assert_ne!(r, Some(2));
    }
}

#[test]
fn at_most_one_process_is_running_at_any_instant() {
    let mut pm = ProcessManager::new();
    pm.create_init_process(0x8000);
    pm.create_process(0x9000, 1);
    pm.create_process(0xA000, 1);
    for _ in 0..8 {
        let elected = pm.schedule();
        let mut running = vec![];
        for p in pm.list_processes() {
            if matches!(p.state, ProcessState::Running) {
                running.push(p.pid);
            }
        }
        assert!(running.len() <= 1, "more than one running process: {:?}", running);
        if let Some(pid) = elected {
            assert_eq!(running, vec![pid]);
            assert_eq!(pm.current_pid(), pid);
        }
    }
}

#[test]
fn a_preempted_process_is_demoted_and_keeps_its_charged_time() {
    let mut pm = ProcessManager::new();
    pm.create_init_process(0x8000);
    pm.create_process(0x9000, 1);
    assert_eq!(pm.schedule(), Some(2));
    // The next step charges pid 2 one tick, then hands the processor to
    // pid 1: pid 2 goes back to Ready without losing the charged tick.
    assert_eq!(pm.schedule(), Some(1));
    let p2 = pm.get_process(2).unwrap();
    assert!(matches!(p2.state, ProcessState::Ready));
    assert_eq!(p2.used_time, 1);
    assert_eq!(pm.schedule(), Some(2));
    let p1 = pm.get_process(1).unwrap();
    assert!(matches!(p1.state, ProcessState::Ready));
    assert_eq!(p1.used_time, 1);
}

#[test]
fn terminating_init_is_rejected_without_side_effects() {
    let mut pm = ProcessManager::new();
    pm.create_init_process(0x8000);
    pm.create_process(0x9000, 1);
    assert!(!pm.terminate_process(1));
    assert!(matches!(pm.get_process(1).unwrap().state, ProcessState::Ready));
    assert_eq!(pm.get_process(2).unwrap().ppid, 1);
    assert_eq!(pm.list_processes().len(), 2);
}
