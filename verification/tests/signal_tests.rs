use kernel_core::process::{ProcessManager, ProcessState};
use kernel_core::signals::{
    block_signal, get_signal_info, send_signal, set_signal_handler, unblock_signal, Signal,
    SignalAction, SignalError, SignalHandler,
};

fn three_process_table() -> ProcessManager {
    let mut pm = ProcessManager::new();
    pm.create_init_process(0x8000);
    pm.create_process(0x9000, 1);
    pm.create_process(0xA000, 1);
    pm
}

#[test]
fn signal_numbers_round_trip() {
    for n in 1..=31 {
        let signal = Signal::from_i32(n).expect("valid signal number");
        assert_eq!(signal.number(), n);
    }
    assert!(Signal::from_i32(0).is_none());
    assert!(Signal::from_i32(32).is_none());
    assert!(Signal::from_i32(-1).is_none());
}

#[test]
fn signal_names_and_defaults() {
    assert_eq!(Signal::SIGKILL.name(), "SIGKILL");
    assert_eq!(Signal::SIGHUP.name(), "SIGHUP");
    assert!(matches!(Signal::SIGCHLD.default_action(), SignalAction::Ignore));
    assert!(matches!(Signal::SIGURG.default_action(), SignalAction::Ignore));
    assert!(matches!(Signal::SIGWINCH.default_action(), SignalAction::Ignore));
    assert!(matches!(Signal::SIGSTOP.default_action(), SignalAction::Stop));
    assert!(matches!(Signal::SIGTSTP.default_action(), SignalAction::Stop));
    assert!(matches!(Signal::SIGCONT.default_action(), SignalAction::Continue));
    assert!(matches!(Signal::SIGTERM.default_action(), SignalAction::Terminate));
    assert!(Signal::SIGKILL.is_uncatchable());
    assert!(Signal::SIGSTOP.is_uncatchable());
    assert!(!Signal::SIGINT.is_uncatchable());
}

#[test]
fn uncatchable_signals_cannot_be_caught_or_blocked() {
    let mut sh = SignalHandler::new();
    assert_eq!(
        sh.set_signal_handler(Signal::SIGKILL, SignalAction::Ignore),
        Err(SignalError::Uncatchable)
    );
    assert_eq!(
        sh.set_signal_handler(Signal::SIGSTOP, SignalAction::Ignore),
        Err(SignalError::Uncatchable)
    );
    assert_eq!(sh.block_signal(Signal::SIGKILL), Err(SignalError::Uncatchable));
    assert_eq!(sh.block_signal(Signal::SIGSTOP), Err(SignalError::Uncatchable));
    // The by-number layer reports the same rejection.
    assert_eq!(block_signal(&mut sh, 9), Err(SignalError::Uncatchable));
    assert_eq!(block_signal(&mut sh, 19), Err(SignalError::Uncatchable));
    assert_eq!(
        set_signal_handler(&mut sh, 9, SignalAction::Custom(0x1234)),
        Err(SignalError::Uncatchable)
    );
    assert_eq!(sh.get_signal_mask(), 0);
}

#[test]
fn sigkill_terminates_regardless_of_mask_state() {
    let mut sh = SignalHandler::new();
    let mut pm = three_process_table();
    // Block everything blockable; SIGKILL must still terminate at once.
    for n in 1..=31 {
        let _ = block_signal(&mut sh, n);
    }
    assert_eq!(sh.send_signal(&mut pm, 2, Signal::SIGKILL, 1), Ok(()));
    assert!(matches!(pm.get_process(2).unwrap().state, ProcessState::Terminated));
    assert_eq!(sh.pending_signals_count(), 0);
}

#[test]
fn stop_and_continue_flip_the_target_state() {
    let mut sh = SignalHandler::new();
    let mut pm = three_process_table();
    assert_eq!(sh.send_signal(&mut pm, 2, Signal::SIGSTOP, 1), Ok(()));
    assert!(matches!(pm.get_process(2).unwrap().state, ProcessState::Sleeping));
    assert_eq!(sh.send_signal(&mut pm, 2, Signal::SIGCONT, 1), Ok(()));
    assert!(matches!(pm.get_process(2).unwrap().state, ProcessState::Ready));
}

#[test]
fn ignored_and_custom_signals_leave_processes_alone() {
    let mut sh = SignalHandler::new();
    let mut pm = three_process_table();
    assert_eq!(sh.send_signal(&mut pm, 2, Signal::SIGCHLD, 1), Ok(()));
    assert!(matches!(pm.get_process(2).unwrap().state, ProcessState::Ready));
    assert_eq!(
        sh.set_signal_handler(Signal::SIGUSR1, SignalAction::Custom(0xCAFE)),
        Ok(())
    );
    assert_eq!(sh.send_signal(&mut pm, 2, Signal::SIGUSR1, 1), Ok(()));
    assert!(matches!(pm.get_process(2).unwrap().state, ProcessState::Ready));
}

#[test]
fn signal_to_missing_process_is_distinct_from_exhaustion() {
    let mut sh = SignalHandler::new();
    let mut pm = three_process_table();
    assert_eq!(
        sh.send_signal(&mut pm, 42, Signal::SIGTERM, 1),
        Err(SignalError::NoSuchProcess)
    );
    assert_eq!(send_signal(&mut sh, &mut pm, 7, 0, 1), Err(SignalError::InvalidSignal));
    assert_eq!(send_signal(&mut sh, &mut pm, 7, 99, 1), Err(SignalError::InvalidSignal));
}

#[test]
fn blocked_signals_queue_in_fifo_order_and_drain_on_unblock() {
    let mut sh = SignalHandler::new();
    let mut pm = three_process_table();
    assert_eq!(sh.block_signal(Signal::SIGUSR1), Ok(()));
    assert_eq!(sh.send_signal(&mut pm, 2, Signal::SIGUSR1, 5), Ok(()));
    assert_eq!(sh.send_signal(&mut pm, 2, Signal::SIGUSR1, 6), Ok(()));
    assert_eq!(sh.pending_signals_count(), 2);
    // Nothing was delivered while blocked.
    assert!(matches!(pm.get_process(2).unwrap().state, ProcessState::Ready));
    sh.unblock_signal(&mut pm, Signal::SIGUSR1);
    assert_eq!(sh.pending_signals_count(), 0);
    let (mask, pending) = get_signal_info(&sh);
    assert_eq!(mask, 0);
    assert_eq!(pending, 0);
}

#[test]
fn unblock_keeps_entries_of_signals_still_blocked() {
    let mut sh = SignalHandler::new();
    let mut pm = three_process_table();
    assert_eq!(sh.block_signal(Signal::SIGUSR1), Ok(()));
    assert_eq!(sh.block_signal(Signal::SIGUSR2), Ok(()));
    assert_eq!(sh.send_signal(&mut pm, 2, Signal::SIGUSR1, 1), Ok(()));
    assert_eq!(sh.send_signal(&mut pm, 2, Signal::SIGUSR2, 1), Ok(()));
    assert_eq!(sh.send_signal(&mut pm, 2, Signal::SIGUSR1, 1), Ok(()));
    assert_eq!(sh.pending_signals_count(), 3);
    sh.unblock_signal(&mut pm, Signal::SIGUSR1);
    // Only the SIGUSR2 entry stays queued.
    assert_eq!(sh.pending_signals_count(), 1);
    sh.unblock_signal(&mut pm, Signal::SIGUSR2);
    assert_eq!(sh.pending_signals_count(), 0);
}

#[test]
fn full_pending_queue_rejects_further_blocked_sends() {
    let mut sh = SignalHandler::new();
    let mut pm = three_process_table();
    assert_eq!(sh.block_signal(Signal::SIGUSR1), Ok(()));
    for _ in 0..32 {
        assert_eq!(sh.send_signal(&mut pm, 2, Signal::SIGUSR1, 1), Ok(()));
    }
    assert_eq!(
        sh.send_signal(&mut pm, 2, Signal::SIGUSR1, 1),
        Err(SignalError::QueueFull)
    );
    assert_eq!(sh.pending_signals_count(), 32);
}

#[test]
fn error_messages_match_the_rejection() {
    assert_eq!(SignalError::InvalidSignal.message(), "Invalid signal number");
    assert_eq!(SignalError::QueueFull.message(), "Too many pending signals");
    assert_eq!(SignalError::NoSuchProcess.message(), "No such process");
    assert_eq!(SignalError::Uncatchable.message(), "Cannot catch SIGKILL or SIGSTOP");
}

#[test]
fn by_number_layer_blocks_and_unblocks() {
    let mut sh = SignalHandler::new();
    let mut pm = three_process_table();
    assert_eq!(block_signal(&mut sh, 10), Ok(()));
    assert_ne!(sh.get_signal_mask(), 0);
    assert_eq!(unblock_signal(&mut sh, &mut pm, 10), Ok(()));
    assert_eq!(sh.get_signal_mask(), 0);
    assert_eq!(unblock_signal(&mut sh, &mut pm, 0), Err(SignalError::InvalidSignal));
}

#[test]
fn keyboard_interrupt_signals_the_current_process() {
    let mut sh = SignalHandler::new();
    let mut pm = three_process_table();
    let running = pm.schedule().expect("a process is ready");
    sh.handle_keyboard_interrupt(&mut pm);
    // SIGINT's default disposition terminates the interrupted process.
    assert!(matches!(
        pm.get_process(running).unwrap().state,
        ProcessState::Terminated
    ));
}

#[test]
fn even_sigkill_cannot_terminate_init() {
    let mut sh = SignalHandler::new();
    let mut pm = three_process_table();
    assert_eq!(
        sh.send_signal(&mut pm, 1, Signal::SIGKILL, 2),
        Err(SignalError::NoSuchProcess)
    );
    assert!(matches!(pm.get_process(1).unwrap().state, ProcessState::Ready));
}
