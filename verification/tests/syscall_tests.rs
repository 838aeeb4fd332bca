use kernel_core::filesystem::create_file;
use kernel_core::process::ProcessState;
use kernel_core::syscalls::{handle_syscall, Kernel, ProcessFdTable, SysCallNumber};

fn booted_kernel() -> Kernel {
    let mut k = Kernel::new();
    k.processes.create_init_process(0x8000);
    k.processes.create_process(0x9000, 1);
    k.processes.create_process(0xA000, 1);
    k
}

fn call(k: &mut Kernel, num: u64, a0: u64, a1: u64, a2: u64) -> i64 {
    handle_syscall(k, num, a0, a1, a2, 0, 0, 0)
}

#[test]
fn unknown_syscall_returns_enosys_and_changes_nothing() {
    let mut k = booted_kernel();
    k.processes.schedule();
    let pid_before = k.processes.current_pid();
    let count_before = k.processes.list_processes().len();
    let mask_before = k.signals.get_signal_mask();
    let pending_before = k.signals.pending_signals_count();

    for num in [0u64, 1, 2, 94, 128, 130, 255, 1000, u64::MAX] {
        assert_eq!(call(&mut k, num, 1, 2, 3), -38, "number {} should be unmapped", num);
    }

    assert_eq!(k.processes.current_pid(), pid_before);
    assert_eq!(k.processes.list_processes().len(), count_before);
    assert_eq!(k.signals.get_signal_mask(), mask_before);
    assert_eq!(k.signals.pending_signals_count(), pending_before);
    for p in k.processes.list_processes() {
        assert!(!matches!(p.state, ProcessState::Terminated));
    }
}

#[test]
fn getpid_and_getppid_follow_the_current_process() {
    let mut k = booted_kernel();
    assert_eq!(k.processes.schedule(), Some(2));
    assert_eq!(call(&mut k, 172, 0, 0, 0), 2);
    assert_eq!(call(&mut k, 173, 0, 0, 0), 1);
}

#[test]
fn getppid_without_a_current_process_answers_init() {
    let mut k = booted_kernel();
    assert_eq!(call(&mut k, 173, 0, 0, 0), 1);
}

#[test]
fn fork_clones_the_caller() {
    let mut k = booted_kernel();
    k.processes.schedule();
    let caller = k.processes.current_pid();
    let child = call(&mut k, 57, 0, 0, 0);
    assert_eq!(child, 4);
    let child_proc = k.processes.get_process(child as u32).unwrap();
    assert_eq!(child_proc.ppid, caller);
    assert_eq!(
        child_proc.entry_point,
        k.processes.get_process(caller).unwrap().entry_point
    );
}

#[test]
fn fork_without_a_caller_fails() {
    let mut k = Kernel::new();
    assert_eq!(call(&mut k, 57, 0, 0, 0), -1);
}

#[test]
fn fork_reports_out_of_memory_when_the_table_is_full() {
    let mut k = booted_kernel();
    k.processes.schedule();
    while k.processes.list_processes().len() < 64 {
        let r = call(&mut k, 57, 0, 0, 0);
        assert!(r > 0);
    }
    assert_eq!(call(&mut k, 57, 0, 0, 0), -12);
}

#[test]
fn exit_terminates_the_calling_process() {
    let mut k = booted_kernel();
    assert_eq!(k.processes.schedule(), Some(2));
    assert_eq!(call(&mut k, 93, 0, 0, 0), 0);
    assert!(matches!(
        k.processes.get_process(2).unwrap().state,
        ProcessState::Terminated
    ));
}

#[test]
fn kill_routes_through_the_signal_subsystem() {
    let mut k = booted_kernel();
    k.processes.schedule();
    // SIGTERM terminates.
    assert_eq!(call(&mut k, 129, 3, 15, 0), 0);
    assert!(matches!(
        k.processes.get_process(3).unwrap().state,
        ProcessState::Terminated
    ));
    // SIGSTOP stops.
    assert_eq!(call(&mut k, 129, 2, 19, 0), 0);
    assert!(matches!(
        k.processes.get_process(2).unwrap().state,
        ProcessState::Sleeping
    ));
    // A bad signal number and a missing process answer distinct codes.
    assert_eq!(call(&mut k, 129, 2, 0, 0), -22);
    assert_eq!(call(&mut k, 129, 99, 15, 0), -3);
}

#[test]
fn kill_reports_a_full_pending_queue() {
    let mut k = booted_kernel();
    k.signals.block_signal(kernel_core::signals::Signal::SIGUSR1).unwrap();
    for _ in 0..32 {
        assert_eq!(call(&mut k, 129, 2, 10, 0), 0);
    }
    assert_eq!(call(&mut k, 129, 2, 10, 0), -11);
}

#[test]
fn open_hands_out_descriptors_in_order() {
    let mut k = booted_kernel();
    assert_eq!(call(&mut k, 56, 0, 0, 0), 3);
    assert_eq!(call(&mut k, 56, 0, 1, 0), 4);
}

#[test]
fn open_rejects_a_full_descriptor_table() {
    let mut k = booted_kernel();
    for fd in 3..32 {
        assert_eq!(call(&mut k, 56, 0, 0, 0), fd);
    }
    assert_eq!(call(&mut k, 56, 0, 0, 0), -24);
}

#[test]
fn read_serves_at_most_the_file_length() {
    let mut k = booted_kernel();
    assert_eq!(call(&mut k, 56, 0, 0, 0), 3);
    // The scratch file does not exist yet: no such file.
    assert_eq!(call(&mut k, 63, 3, 0, 100), -2);
    assert!(create_file(&mut k.files, "/tmp/testfile", "hello"));
    assert_eq!(call(&mut k, 63, 3, 0, 100), 5);
    assert_eq!(call(&mut k, 63, 3, 0, 3), 3);
    assert_eq!(call(&mut k, 63, 3, 0, 0), 0);
}

#[test]
fn read_from_stdin_is_end_of_file() {
    let mut k = booted_kernel();
    assert_eq!(call(&mut k, 63, 0, 0, 100), 0);
}

#[test]
fn read_from_a_bad_descriptor_is_rejected() {
    let mut k = booted_kernel();
    assert_eq!(call(&mut k, 63, 17, 0, 100), -9);
}

#[test]
fn write_accepts_the_count_on_valid_descriptors() {
    let mut k = booted_kernel();
    assert_eq!(call(&mut k, 64, 1, 0, 42), 42);
    assert_eq!(call(&mut k, 64, 2, 0, 7), 7);
    assert_eq!(call(&mut k, 64, 9, 0, 7), -9);
    assert_eq!(call(&mut k, 56, 0, 0, 0), 3);
    assert_eq!(call(&mut k, 64, 3, 0, 11), 11);
}

#[test]
fn filesystem_adjacent_calls_answer_their_fixed_codes() {
    let mut k = booted_kernel();
    assert_eq!(call(&mut k, 49, 0, 0, 0), 0); // chdir
    assert_eq!(call(&mut k, 79, 0, 256, 0), 256); // getcwd answers the size
    assert_eq!(call(&mut k, 83, 0, 0, 0), 0); // mkdir
    assert_eq!(call(&mut k, 87, 0, 0, 0), 0); // unlink
    assert_eq!(call(&mut k, 21, 0, 0, 0), 0); // access
    assert_eq!(call(&mut k, 106, 0, 0, 0), 0); // stat
}

#[test]
fn descriptor_table_closes_exactly_once() {
    let mut fds = ProcessFdTable::new();
    assert!(fds.get_fd(0).is_some());
    assert!(fds.get_fd(1).is_some());
    assert!(fds.get_fd(2).is_some());
    assert_eq!(fds.get_fd(1).unwrap().path.as_str(), "/dev/stdout");
    assert_eq!(fds.close_file(1), Ok(0));
    assert!(fds.get_fd(1).is_none());
    assert_eq!(fds.close_file(1), Err(-9));
    assert_eq!(fds.close_file(77), Err(-9));
}

#[test]
fn descriptor_paths_longer_than_the_cap_are_dropped() {
    let mut fds = ProcessFdTable::new();
    let long = "x".repeat(65);
    assert_eq!(fds.open_file(&long, 0), Ok(3));
    assert_eq!(fds.get_fd(3).unwrap().path.as_str(), "");
    assert_eq!(fds.open_file("/short", 0), Ok(4));
    assert_eq!(fds.get_fd(4).unwrap().path.as_str(), "/short");
}

#[test]
fn syscall_numbers_follow_the_architecture() {
    assert_eq!(SysCallNumber::Exit.number(), 93);
    assert_eq!(SysCallNumber::Fork.number(), 57);
    assert_eq!(SysCallNumber::Open.number(), 56);
    assert_eq!(SysCallNumber::Read.number(), 63);
    assert_eq!(SysCallNumber::Write.number(), 64);
    assert_eq!(SysCallNumber::Getpid.number(), 172);
    assert_eq!(SysCallNumber::Getppid.number(), 173);
    assert_eq!(SysCallNumber::Kill.number(), 129);
    assert_eq!(SysCallNumber::Chdir.number(), 49);
    assert_eq!(SysCallNumber::Getcwd.number(), 79);
    assert_eq!(SysCallNumber::Mkdir.number(), 83);
    assert_eq!(SysCallNumber::Unlink.number(), 87);
    assert_eq!(SysCallNumber::Access.number(), 21);
    assert_eq!(SysCallNumber::Stat.number(), 106);
}

#[test]
fn init_survives_exit_and_kill() {
    let mut k = Kernel::new();
    k.processes.create_init_process(0x8000);
    assert_eq!(k.processes.schedule(), Some(1));
    // exit from init is accepted but terminates nothing.
    assert_eq!(call(&mut k, 93, 0, 0, 0), 0);
    assert!(!matches!(
        k.processes.get_process(1).unwrap().state,
        ProcessState::Terminated
    ));
    // kill -9 against init is refused.
    assert_eq!(call(&mut k, 129, 1, 9, 0), -3);
    assert!(!matches!(
        k.processes.get_process(1).unwrap().state,
        ProcessState::Terminated
    ));
}
