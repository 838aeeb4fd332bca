//! POSIX-style signal delivery.
//!
//! A signal sent while blocked waits in a bounded FIFO queue; unblocking a
//! signal drains every queue entry that is no longer blocked, in arrival
//! order.  Delivery resolves the per-signal action (terminate, stop,
//! continue, ignore, core, custom) against the process table.  The two
//! uncatchable signals can neither be blocked nor given a handler.

use vstd::prelude::*;

use crate::process::{
    spec_terminate, spec_terminate_allowed, spec_with_state, ProcessManager, ProcessState,
    ProcessTableView,
};

verus! {

pub const MAX_PENDING_SIGNALS: usize = 32;

#[derive(Clone, Copy, Debug, PartialEq, Eq, Structural)]
pub enum Signal {
    SIGHUP,
    SIGINT,
    SIGQUIT,
    SIGILL,
    SIGTRAP,
    SIGABRT,
    SIGBUS,
    SIGFPE,
    SIGKILL,
    SIGUSR1,
    SIGSEGV,
    SIGUSR2,
    SIGPIPE,
    SIGALRM,
    SIGTERM,
    SIGSTKFLT,
    SIGCHLD,
    SIGCONT,
    SIGSTOP,
    SIGTSTP,
    SIGTTIN,
    SIGTTOU,
    SIGURG,
    SIGXCPU,
    SIGXFSZ,
    SIGVTALRM,
    SIGPROF,
    SIGWINCH,
    SIGIO,
    SIGPWR,
    SIGSYS,
}

/// The POSIX number of a signal.
pub open spec fn signal_number(s: Signal) -> i32 {
    match s {
        Signal::SIGHUP => 1,
        Signal::SIGINT => 2,
        Signal::SIGQUIT => 3,
        Signal::SIGILL => 4,
        Signal::SIGTRAP => 5,
        Signal::SIGABRT => 6,
        Signal::SIGBUS => 7,
        Signal::SIGFPE => 8,
        Signal::SIGKILL => 9,
        Signal::SIGUSR1 => 10,
        Signal::SIGSEGV => 11,
        Signal::SIGUSR2 => 12,
        Signal::SIGPIPE => 13,
        Signal::SIGALRM => 14,
        Signal::SIGTERM => 15,
        Signal::SIGSTKFLT => 16,
        Signal::SIGCHLD => 17,
        Signal::SIGCONT => 18,
        Signal::SIGSTOP => 19,
        Signal::SIGTSTP => 20,
        Signal::SIGTTIN => 21,
        Signal::SIGTTOU => 22,
        Signal::SIGURG => 23,
        Signal::SIGXCPU => 24,
        Signal::SIGXFSZ => 25,
        Signal::SIGVTALRM => 26,
        Signal::SIGPROF => 27,
        Signal::SIGWINCH => 28,
        Signal::SIGIO => 29,
        Signal::SIGPWR => 30,
        Signal::SIGSYS => 31,
    }
}

/// The signal with a given POSIX number, if the number is in range.
pub open spec fn spec_signal(value: i32) -> Option<Signal> {
    if value == 1 {
        Some(Signal::SIGHUP)
    } else if value == 2 {
        Some(Signal::SIGINT)
    } else if value == 3 {
        Some(Signal::SIGQUIT)
    } else if value == 4 {
        Some(Signal::SIGILL)
    } else if value == 5 {
        Some(Signal::SIGTRAP)
    } else if value == 6 {
        Some(Signal::SIGABRT)
    } else if value == 7 {
        Some(Signal::SIGBUS)
    } else if value == 8 {
        Some(Signal::SIGFPE)
    } else if value == 9 {
        Some(Signal::SIGKILL)
    } else if value == 10 {
        Some(Signal::SIGUSR1)
    } else if value == 11 {
        Some(Signal::SIGSEGV)
    } else if value == 12 {
        Some(Signal::SIGUSR2)
    } else if value == 13 {
        Some(Signal::SIGPIPE)
    } else if value == 14 {
        Some(Signal::SIGALRM)
    } else if value == 15 {
        Some(Signal::SIGTERM)
    } else if value == 16 {
        Some(Signal::SIGSTKFLT)
    } else if value == 17 {
        Some(Signal::SIGCHLD)
    } else if value == 18 {
        Some(Signal::SIGCONT)
    } else if value == 19 {
        Some(Signal::SIGSTOP)
    } else if value == 20 {
        Some(Signal::SIGTSTP)
    } else if value == 21 {
        Some(Signal::SIGTTIN)
    } else if value == 22 {
        Some(Signal::SIGTTOU)
    } else if value == 23 {
        Some(Signal::SIGURG)
    } else if value == 24 {
        Some(Signal::SIGXCPU)
    } else if value == 25 {
        Some(Signal::SIGXFSZ)
    } else if value == 26 {
        Some(Signal::SIGVTALRM)
    } else if value == 27 {
        Some(Signal::SIGPROF)
    } else if value == 28 {
        Some(Signal::SIGWINCH)
    } else if value == 29 {
        Some(Signal::SIGIO)
    } else if value == 30 {
        Some(Signal::SIGPWR)
    } else if value == 31 {
        Some(Signal::SIGSYS)
    } else {
        None
    }
}

pub open spec fn spec_uncatchable(s: Signal) -> bool {
    s == Signal::SIGKILL || s == Signal::SIGSTOP
}

/// The built-in disposition a signal falls back to.
pub open spec fn spec_default_action(s: Signal) -> SignalAction {
    match s {
        Signal::SIGCHLD | Signal::SIGURG | Signal::SIGWINCH => SignalAction::Ignore,
        Signal::SIGSTOP | Signal::SIGTSTP | Signal::SIGTTIN | Signal::SIGTTOU => SignalAction::Stop,
        Signal::SIGCONT => SignalAction::Continue,
        _ => SignalAction::Terminate,
    }
}

impl Signal {
    pub fn from_i32(value: i32) -> (r: Option<Signal>)
        ensures
            r == spec_signal(value),
            r is Some <==> 1 <= value <= 31,
            r is Some ==> signal_number(r->Some_0) == value,
    {
        match value {
            1 => Some(Signal::SIGHUP),
            2 => Some(Signal::SIGINT),
            3 => Some(Signal::SIGQUIT),
            4 => Some(Signal::SIGILL),
            5 => Some(Signal::SIGTRAP),
            6 => Some(Signal::SIGABRT),
            7 => Some(Signal::SIGBUS),
            8 => Some(Signal::SIGFPE),
            9 => Some(Signal::SIGKILL),
            10 => Some(Signal::SIGUSR1),
            11 => Some(Signal::SIGSEGV),
            12 => Some(Signal::SIGUSR2),
            13 => Some(Signal::SIGPIPE),
            14 => Some(Signal::SIGALRM),
            15 => Some(Signal::SIGTERM),
            16 => Some(Signal::SIGSTKFLT),
            17 => Some(Signal::SIGCHLD),
            18 => Some(Signal::SIGCONT),
            19 => Some(Signal::SIGSTOP),
            20 => Some(Signal::SIGTSTP),
            21 => Some(Signal::SIGTTIN),
            22 => Some(Signal::SIGTTOU),
            23 => Some(Signal::SIGURG),
            24 => Some(Signal::SIGXCPU),
            25 => Some(Signal::SIGXFSZ),
            26 => Some(Signal::SIGVTALRM),
            27 => Some(Signal::SIGPROF),
            28 => Some(Signal::SIGWINCH),
            29 => Some(Signal::SIGIO),
            30 => Some(Signal::SIGPWR),
            31 => Some(Signal::SIGSYS),
            _ => None,
        }
    }

    /// The signal's POSIX number.
    pub fn number(&self) -> (r: i32)
        ensures
            r == signal_number(*self),
            1 <= r <= 31,
    {
        match self {
            Signal::SIGHUP => 1,
            Signal::SIGINT => 2,
            Signal::SIGQUIT => 3,
            Signal::SIGILL => 4,
            Signal::SIGTRAP => 5,
            Signal::SIGABRT => 6,
            Signal::SIGBUS => 7,
            Signal::SIGFPE => 8,
            Signal::SIGKILL => 9,
            Signal::SIGUSR1 => 10,
            Signal::SIGSEGV => 11,
            Signal::SIGUSR2 => 12,
            Signal::SIGPIPE => 13,
            Signal::SIGALRM => 14,
            Signal::SIGTERM => 15,
            Signal::SIGSTKFLT => 16,
            Signal::SIGCHLD => 17,
            Signal::SIGCONT => 18,
            Signal::SIGSTOP => 19,
            Signal::SIGTSTP => 20,
            Signal::SIGTTIN => 21,
            Signal::SIGTTOU => 22,
            Signal::SIGURG => 23,
            Signal::SIGXCPU => 24,
            Signal::SIGXFSZ => 25,
            Signal::SIGVTALRM => 26,
            Signal::SIGPROF => 27,
            Signal::SIGWINCH => 28,
            Signal::SIGIO => 29,
            Signal::SIGPWR => 30,
            Signal::SIGSYS => 31,
        }
    }

    pub fn name(&self) -> (r: &'static str)
        ensures
            r@ == spec_signal_name(*self),
    {
        match self {
            Signal::SIGHUP => "SIGHUP",
            Signal::SIGINT => "SIGINT",
            Signal::SIGQUIT => "SIGQUIT",
            Signal::SIGILL => "SIGILL",
            Signal::SIGTRAP => "SIGTRAP",
            Signal::SIGABRT => "SIGABRT",
            Signal::SIGBUS => "SIGBUS",
            Signal::SIGFPE => "SIGFPE",
            Signal::SIGKILL => "SIGKILL",
            Signal::SIGUSR1 => "SIGUSR1",
            Signal::SIGSEGV => "SIGSEGV",
            Signal::SIGUSR2 => "SIGUSR2",
            Signal::SIGPIPE => "SIGPIPE",
            Signal::SIGALRM => "SIGALRM",
            Signal::SIGTERM => "SIGTERM",
            Signal::SIGSTKFLT => "SIGSTKFLT",
            Signal::SIGCHLD => "SIGCHLD",
            Signal::SIGCONT => "SIGCONT",
            Signal::SIGSTOP => "SIGSTOP",
            Signal::SIGTSTP => "SIGTSTP",
            Signal::SIGTTIN => "SIGTTIN",
            Signal::SIGTTOU => "SIGTTOU",
            Signal::SIGURG => "SIGURG",
            Signal::SIGXCPU => "SIGXCPU",
            Signal::SIGXFSZ => "SIGXFSZ",
            Signal::SIGVTALRM => "SIGVTALRM",
            Signal::SIGPROF => "SIGPROF",
            Signal::SIGWINCH => "SIGWINCH",
            Signal::SIGIO => "SIGIO",
            Signal::SIGPWR => "SIGPWR",
            Signal::SIGSYS => "SIGSYS",
        }
    }

    pub fn is_uncatchable(&self) -> (r: bool)
        ensures
            r == spec_uncatchable(*self),
    {
        matches!(self, Signal::SIGKILL | Signal::SIGSTOP)
    }

    pub fn default_action(&self) -> (r: SignalAction)
        ensures
            r == spec_default_action(*self),
    {
        match self {
            Signal::SIGCHLD | Signal::SIGURG | Signal::SIGWINCH => SignalAction::Ignore,
            Signal::SIGSTOP | Signal::SIGTSTP | Signal::SIGTTIN | Signal::SIGTTOU => {
                SignalAction::Stop
            },
            Signal::SIGCONT => SignalAction::Continue,
            _ => SignalAction::Terminate,
        }
    }
}

/// The conventional name of a signal.
pub open spec fn spec_signal_name(s: Signal) -> Seq<char> {
    match s {
        Signal::SIGHUP => "SIGHUP"@,
        Signal::SIGINT => "SIGINT"@,
        Signal::SIGQUIT => "SIGQUIT"@,
        Signal::SIGILL => "SIGILL"@,
        Signal::SIGTRAP => "SIGTRAP"@,
        Signal::SIGABRT => "SIGABRT"@,
        Signal::SIGBUS => "SIGBUS"@,
        Signal::SIGFPE => "SIGFPE"@,
        Signal::SIGKILL => "SIGKILL"@,
        Signal::SIGUSR1 => "SIGUSR1"@,
        Signal::SIGSEGV => "SIGSEGV"@,
        Signal::SIGUSR2 => "SIGUSR2"@,
        Signal::SIGPIPE => "SIGPIPE"@,
        Signal::SIGALRM => "SIGALRM"@,
        Signal::SIGTERM => "SIGTERM"@,
        Signal::SIGSTKFLT => "SIGSTKFLT"@,
        Signal::SIGCHLD => "SIGCHLD"@,
        Signal::SIGCONT => "SIGCONT"@,
        Signal::SIGSTOP => "SIGSTOP"@,
        Signal::SIGTSTP => "SIGTSTP"@,
        Signal::SIGTTIN => "SIGTTIN"@,
        Signal::SIGTTOU => "SIGTTOU"@,
        Signal::SIGURG => "SIGURG"@,
        Signal::SIGXCPU => "SIGXCPU"@,
        Signal::SIGXFSZ => "SIGXFSZ"@,
        Signal::SIGVTALRM => "SIGVTALRM"@,
        Signal::SIGPROF => "SIGPROF"@,
        Signal::SIGWINCH => "SIGWINCH"@,
        Signal::SIGIO => "SIGIO"@,
        Signal::SIGPWR => "SIGPWR"@,
        Signal::SIGSYS => "SIGSYS"@,
    }
}

#[derive(Clone, Copy, Debug, PartialEq, Eq, Structural)]
pub enum SignalAction {
    Default,
    Ignore,
    Terminate,
    Stop,
    Continue,
    /// Terminate with a diagnostic dump.
    Core,
    /// A handler address is recorded but never jumped to: this core has no
    /// user-mode trampoline, so the variant is accepted and otherwise inert.
    Custom(u64),
}

#[derive(Clone, Copy, Debug, PartialEq, Eq, Structural)]
pub struct PendingSignal {
    pub signal: Signal,
    pub sender_pid: u32,
}

/// Why a signal operation was refused.
#[derive(Clone, Copy, Debug, PartialEq, Eq, Structural)]
pub enum SignalError {
    /// The number maps to no signal.
    InvalidSignal,
    /// The pending queue is full (resource exhaustion, retryable).
    QueueFull,
    /// The target process does not exist.
    NoSuchProcess,
    /// The signal can be neither caught nor blocked.
    Uncatchable,
}

impl SignalError {
    /// A human-readable rejection reason.
    pub fn message(&self) -> (r: &'static str)
        ensures
            *self == SignalError::InvalidSignal ==> r@ == "Invalid signal number"@,
            *self == SignalError::QueueFull ==> r@ == "Too many pending signals"@,
            *self == SignalError::NoSuchProcess ==> r@ == "No such process"@,
            *self == SignalError::Uncatchable ==> r@ == "Cannot catch SIGKILL or SIGSTOP"@,
    {
        match self {
            SignalError::InvalidSignal => "Invalid signal number",
            SignalError::QueueFull => "Too many pending signals",
            SignalError::NoSuchProcess => "No such process",
            SignalError::Uncatchable => "Cannot catch SIGKILL or SIGSTOP",
        }
    }
}

/// The pending signals a `heapless::Vec<PendingSignal, MAX_PENDING_SIGNALS>`
/// holds, in arrival order.
pub uninterp spec fn pend_vec_model(v: heapless::Vec<PendingSignal, MAX_PENDING_SIGNALS>) -> Seq<
    PendingSignal,
>;

/// Relies on `heapless::Vec::new`: the new vector is empty.
#[verifier::external_body]
fn pend_vec_new() -> (r: heapless::Vec<PendingSignal, MAX_PENDING_SIGNALS>)
    ensures
        pend_vec_model(r) == Seq::<PendingSignal>::empty(),
{
    heapless::Vec::new()
}

/// Relies on `heapless::Vec::push`: appends when below capacity, otherwise
/// hands the item back and leaves the vector unchanged.
#[verifier::external_body]
fn pend_vec_push(
    v: &mut heapless::Vec<PendingSignal, MAX_PENDING_SIGNALS>,
    item: PendingSignal,
) -> (r: Result<(), PendingSignal>)
    ensures
        r is Ok <==> pend_vec_model(*old(v)).len() < MAX_PENDING_SIGNALS,
        r is Ok ==> pend_vec_model(*final(v)) == pend_vec_model(*old(v)).push(item),
        r is Err ==> r->Err_0 == item && pend_vec_model(*final(v)) == pend_vec_model(*old(v)),
{
    v.push(item)
}

/// Relies on the slice `len` reached through `heapless::Vec`'s `Deref`.
#[verifier::external_body]
fn pend_vec_len(v: &heapless::Vec<PendingSignal, MAX_PENDING_SIGNALS>) -> (r: usize)
    ensures
        r == pend_vec_model(*v).len(),
{
    v.len()
}

/// Relies on the slice indexing reached through `heapless::Vec`'s `Deref`.
#[verifier::external_body]
fn pend_vec_get(v: &heapless::Vec<PendingSignal, MAX_PENDING_SIGNALS>, i: usize) -> (r:
    &PendingSignal)
    requires
        i < pend_vec_model(*v).len(),
    ensures
        *r == pend_vec_model(*v)[i as int],
{
    &v[i]
}

/// Relies on `heapless::Vec::remove`: takes out the element at the index and
/// shifts what follows left, keeping the order.
#[verifier::external_body]
fn pend_vec_remove(v: &mut heapless::Vec<PendingSignal, MAX_PENDING_SIGNALS>, i: usize) -> (r:
    PendingSignal)
    requires
        i < pend_vec_model(*old(v)).len(),
    ensures
        r == pend_vec_model(*old(v))[i as int],
        pend_vec_model(*final(v)) == pend_vec_model(*old(v)).remove(i as int),
{
    v.remove(i)
}

/// The bit standing for a signal in the 64-bit block mask.
pub open spec fn signal_bit(s: Signal) -> u64 {
    1u64 << ((signal_number(s) - 1) as u64)
}

/// Whether a signal is blocked under a mask.
pub open spec fn spec_blocked(mask: u64, s: Signal) -> bool {
    mask & signal_bit(s) != 0
}

/// The mathematical state of the signal subsystem.
#[verifier::ext_equal]
pub struct SignalHandlerView {
    pub mask: u64,
    pub pending: Seq<PendingSignal>,
    /// One action per signal number, at index `number - 1`.
    pub handlers: Seq<SignalAction>,
}

impl SignalHandlerView {
    /// Well-formedness: the queue is bounded, the action table has one slot
    /// per signal, and the uncatchable signals keep their default actions.
    pub open spec fn wf(self) -> bool {
        &&& self.pending.len() <= MAX_PENDING_SIGNALS
        &&& self.handlers.len() == 32
        &&& self.handlers[signal_number(Signal::SIGKILL) - 1] == SignalAction::Terminate
        &&& self.handlers[signal_number(Signal::SIGSTOP) - 1] == SignalAction::Stop
    }
}

/// The effect of terminating `target` on the process table.  A target the
/// table refuses — unknown, or init itself, which never terminates — leaves
/// the table alone and surfaces as the lookup failure.
pub open spec fn spec_terminate_effect(pm: ProcessTableView, target: u32) -> (
    ProcessTableView,
    Result<(), SignalError>,
) {
    if spec_terminate_allowed(pm.processes, target) {
        (
            ProcessTableView { processes: spec_terminate(pm.processes, target), ..pm },
            Ok(()),
        )
    } else {
        (pm, Err(SignalError::NoSuchProcess))
    }
}

/// The effect of overwriting `target`'s state on the process table.
pub open spec fn spec_state_effect(pm: ProcessTableView, target: u32, state: ProcessState) -> (
    ProcessTableView,
    Result<(), SignalError>,
) {
    if 1 <= target <= pm.processes.len() {
        (
            ProcessTableView {
                processes: pm.processes.update(
                    target - 1,
                    spec_with_state(pm.processes[target - 1], state),
                ),
                ..pm
            },
            Ok(()),
        )
    } else {
        (pm, Err(SignalError::NoSuchProcess))
    }
}

/// What a signal's built-in disposition does to the process table.
pub open spec fn spec_apply_default(pm: ProcessTableView, target: u32, signal: Signal) -> (
    ProcessTableView,
    Result<(), SignalError>,
) {
    match spec_default_action(signal) {
        SignalAction::Stop => spec_state_effect(pm, target, ProcessState::Sleeping),
        SignalAction::Continue => spec_state_effect(pm, target, ProcessState::Ready),
        SignalAction::Ignore => (pm, Ok(())),
        _ => spec_terminate_effect(pm, target),
    }
}

/// What one action does to the process table.
pub open spec fn spec_apply_action(
    action: SignalAction,
    pm: ProcessTableView,
    target: u32,
    signal: Signal,
) -> (ProcessTableView, Result<(), SignalError>) {
    match action {
        SignalAction::Default => spec_apply_default(pm, target, signal),
        SignalAction::Ignore => (pm, Ok(())),
        SignalAction::Terminate => spec_terminate_effect(pm, target),
        SignalAction::Stop => spec_state_effect(pm, target, ProcessState::Sleeping),
        SignalAction::Continue => spec_state_effect(pm, target, ProcessState::Ready),
        SignalAction::Core => spec_terminate_effect(pm, target),
        SignalAction::Custom(_) => (pm, Ok(())),
    }
}

/// Immediate delivery: the registered action applied to the target.
pub open spec fn spec_deliver(
    sh: SignalHandlerView,
    pm: ProcessTableView,
    target: u32,
    signal: Signal,
) -> (ProcessTableView, Result<(), SignalError>) {
    spec_apply_action(sh.handlers[signal_number(signal) - 1], pm, target, signal)
}

/// One send: queue the signal if it is blocked and catchable, otherwise
/// deliver it at once.
pub open spec fn spec_send(
    sh: SignalHandlerView,
    pm: ProcessTableView,
    target: u32,
    signal: Signal,
    sender: u32,
) -> (SignalHandlerView, ProcessTableView, Result<(), SignalError>) {
    if spec_blocked(sh.mask, signal) && !spec_uncatchable(signal) {
        if sh.pending.len() < MAX_PENDING_SIGNALS {
            (
                SignalHandlerView {
                    pending: sh.pending.push(PendingSignal { signal, sender_pid: sender }),
                    ..sh
                },
                pm,
                Ok(()),
            )
        } else {
            (sh, pm, Err(SignalError::QueueFull))
        }
    } else {
        let (pm2, r) = spec_deliver(sh, pm, target, signal);
        (sh, pm2, r)
    }
}

/// The queue entries still blocked under `mask`, in order.
pub open spec fn spec_kept(mask: u64, entries: Seq<PendingSignal>) -> Seq<PendingSignal>
    decreases entries.len(),
{
    if entries.len() == 0 {
        Seq::empty()
    } else {
        let rest = spec_kept(mask, entries.subrange(1, entries.len() as int));
        if spec_blocked(mask, entries[0].signal) {
            seq![entries[0]] + rest
        } else {
            rest
        }
    }
}

/// The queue entries no longer blocked under `mask`, in order.
pub open spec fn spec_released(mask: u64, entries: Seq<PendingSignal>) -> Seq<PendingSignal>
    decreases entries.len(),
{
    if entries.len() == 0 {
        Seq::empty()
    } else {
        let rest = spec_released(mask, entries.subrange(1, entries.len() as int));
        if spec_blocked(mask, entries[0].signal) {
            rest
        } else {
            seq![entries[0]] + rest
        }
    }
}

/// The process table after the entries are delivered front to back.  A
/// drained entry is delivered to pid 0, the slot this single-instance model
/// uses for the currently scheduled process; the delivery result is
/// discarded, as the queue is drained either way.
pub open spec fn spec_deliver_pending(
    handlers: Seq<SignalAction>,
    pm: ProcessTableView,
    entries: Seq<PendingSignal>,
) -> ProcessTableView
    decreases entries.len(),
{
    if entries.len() == 0 {
        pm
    } else {
        let pm1 = spec_apply_action(
            handlers[signal_number(entries[0].signal) - 1],
            pm,
            0,
            entries[0].signal,
        ).0;
        spec_deliver_pending(handlers, pm1, entries.subrange(1, entries.len() as int))
    }
}

/// One unblock: clear the mask bit, then drain every entry that is no
/// longer blocked, in arrival order.
pub open spec fn spec_unblock(
    sh: SignalHandlerView,
    pm: ProcessTableView,
    signal: Signal,
) -> (SignalHandlerView, ProcessTableView) {
    let mask2 = sh.mask & !signal_bit(signal);
    let sh2 = SignalHandlerView { mask: mask2, pending: spec_kept(mask2, sh.pending), ..sh };
    (sh2, spec_deliver_pending(sh.handlers, pm, spec_released(mask2, sh.pending)))
}

proof fn lemma_kept_push(mask: u64, s: Seq<PendingSignal>, x: PendingSignal)
    ensures
        spec_kept(mask, s.push(x)) == spec_kept(mask, s) + (if spec_blocked(mask, x.signal) {
            seq![x]
        } else {
            Seq::<PendingSignal>::empty()
        }),
    decreases s.len(),
{
    let t = s.push(x);
    let tt = t.subrange(1, t.len() as int);
    if s.len() == 0 {
        assert(tt =~= Seq::<PendingSignal>::empty());
        assert(spec_kept(mask, tt) == Seq::<PendingSignal>::empty());
        assert(spec_kept(mask, t) =~= spec_kept(mask, s) + (if spec_blocked(mask, x.signal) {
            seq![x]
        } else {
            Seq::<PendingSignal>::empty()
        }));
    } else {
        let st = s.subrange(1, s.len() as int);
        assert(tt =~= st.push(x));
        lemma_kept_push(mask, st, x);
        assert(spec_kept(mask, tt) == spec_kept(mask, st) + (if spec_blocked(mask, x.signal) {
            seq![x]
        } else {
            Seq::<PendingSignal>::empty()
        }));
        assert(t[0] == s[0]);
        assert(spec_kept(mask, t) =~= spec_kept(mask, s) + (if spec_blocked(mask, x.signal) {
            seq![x]
        } else {
            Seq::<PendingSignal>::empty()
        }));
    }
}

proof fn lemma_released_push(mask: u64, s: Seq<PendingSignal>, x: PendingSignal)
    ensures
        spec_released(mask, s.push(x)) == spec_released(mask, s) + (if spec_blocked(
            mask,
            x.signal,
        ) {
            Seq::<PendingSignal>::empty()
        } else {
            seq![x]
        }),
    decreases s.len(),
{
    let t = s.push(x);
    let tt = t.subrange(1, t.len() as int);
    if s.len() == 0 {
        assert(tt =~= Seq::<PendingSignal>::empty());
        assert(spec_released(mask, tt) == Seq::<PendingSignal>::empty());
        assert(spec_released(mask, t) =~= spec_released(mask, s) + (if spec_blocked(
            mask,
            x.signal,
        ) {
            Seq::<PendingSignal>::empty()
        } else {
            seq![x]
        }));
    } else {
        let st = s.subrange(1, s.len() as int);
        assert(tt =~= st.push(x));
        lemma_released_push(mask, st, x);
        assert(spec_released(mask, tt) == spec_released(mask, st) + (if spec_blocked(
            mask,
            x.signal,
        ) {
            Seq::<PendingSignal>::empty()
        } else {
            seq![x]
        }));
        assert(t[0] == s[0]);
        assert(spec_released(mask, t) =~= spec_released(mask, s) + (if spec_blocked(
            mask,
            x.signal,
        ) {
            Seq::<PendingSignal>::empty()
        } else {
            seq![x]
        }));
    }
}

proof fn lemma_deliver_pending_push(
    handlers: Seq<SignalAction>,
    pm: ProcessTableView,
    s: Seq<PendingSignal>,
    x: PendingSignal,
)
    ensures
        spec_deliver_pending(handlers, pm, s.push(x)) == spec_apply_action(
            handlers[signal_number(x.signal) - 1],
            spec_deliver_pending(handlers, pm, s),
            0,
            x.signal,
        ).0,
    decreases s.len(),
{
    let t = s.push(x);
    let tt = t.subrange(1, t.len() as int);
    if s.len() == 0 {
        assert(tt =~= Seq::<PendingSignal>::empty());
        let pm1 = spec_apply_action(handlers[signal_number(x.signal) - 1], pm, 0, x.signal).0;
        assert(spec_deliver_pending(handlers, pm1, tt) == pm1);
        assert(spec_deliver_pending(handlers, pm, s) == pm);
    } else {
        assert(tt =~= s.subrange(1, s.len() as int).push(x));
        let pm1 = spec_apply_action(handlers[signal_number(s[0].signal) - 1], pm, 0, s[0].signal).0;
        lemma_deliver_pending_push(handlers, pm1, s.subrange(1, s.len() as int), x);
        assert(t[0] == s[0]);
    }
}

/// The signal subsystem's state: the block mask, the pending queue and the
/// per-signal action table (one instance, standing for the currently
/// scheduled process).
pub struct SignalHandler {
    signal_mask: u64,
    pending_signals: heapless::Vec<PendingSignal, MAX_PENDING_SIGNALS>,
    signal_handlers: Vec<SignalAction>,
}

impl View for SignalHandler {
    type V = SignalHandlerView;

    closed spec fn view(&self) -> SignalHandlerView {
        SignalHandlerView {
            mask: self.signal_mask,
            pending: pend_vec_model(self.pending_signals),
            handlers: self.signal_handlers@,
        }
    }
}

impl SignalHandler {
    pub open spec fn wf(&self) -> bool {
        self@.wf()
    }

    /// A fresh handler: nothing blocked, nothing pending, every signal on
    /// its built-in default action.
    pub fn new() -> (r: SignalHandler)
        ensures
            r.wf(),
            r@.mask == 0,
            r@.pending == Seq::<PendingSignal>::empty(),
            r@.handlers.len() == 32,
            forall|s: Signal| r@.handlers[signal_number(s) - 1] == spec_default_action(s),
            r@.handlers[31] == SignalAction::Default,
    {
        let mut handlers: Vec<SignalAction> = Vec::new();
        let mut k: usize = 0;
        while k < 32
            invariant
                k <= 32,
                handlers@.len() == k,
                forall|j: int| 0 <= j < k ==> handlers@[j] == SignalAction::Default,
            decreases 32 - k,
        {
            handlers.push(SignalAction::Default);
            k = k + 1;
        }
        let mut i: i32 = 1;
        while i <= 31
            invariant
                1 <= i <= 32,
                handlers@.len() == 32,
                forall|s: Signal|
                    #![trigger signal_number(s)]
                    signal_number(s) < i ==> handlers@[signal_number(s) - 1]
                        == spec_default_action(s),
                handlers@[31] == SignalAction::Default,
            decreases 32 - i,
        {
            if let Some(signal) = Signal::from_i32(i) {
                let action = signal.default_action();
                handlers[(i - 1) as usize] = action;
            }
            i = i + 1;
        }
        SignalHandler {
            signal_mask: 0,
            pending_signals: pend_vec_new(),
            signal_handlers: handlers,
        }
    }

    /// Whether a signal is currently blocked.
    fn blocked(&self, signal: Signal) -> (r: bool)
        ensures
            r == spec_blocked(self@.mask, signal),
    {
        let bit = 1u64 << ((signal.number() - 1) as u64);
        self.signal_mask & bit != 0
    }

    /// Sends a signal to `target_pid` from `sender_pid`: queued if blocked
    /// and catchable (`QueueFull` when the queue is), delivered at once
    /// otherwise.
    pub fn send_signal(
        &mut self,
        pm: &mut ProcessManager,
        target_pid: u32,
        signal: Signal,
        sender_pid: u32,
    ) -> (r: Result<(), SignalError>)
        requires
            old(self).wf(),
            old(pm).wf(),
        ensures
            final(self).wf(),
            final(pm).wf(),
            final(self)@ == spec_send(old(self)@, old(pm)@, target_pid, signal, sender_pid).0,
            final(pm)@ == spec_send(old(self)@, old(pm)@, target_pid, signal, sender_pid).1,
            r == spec_send(old(self)@, old(pm)@, target_pid, signal, sender_pid).2,
    {
        if self.blocked(signal) && !signal.is_uncatchable() {
            if pend_vec_len(&self.pending_signals) < MAX_PENDING_SIGNALS {
                let pushed = pend_vec_push(
                    &mut self.pending_signals,
                    PendingSignal { signal, sender_pid },
                );
                assert(pushed is Ok);
                Ok(())
            } else {
                Err(SignalError::QueueFull)
            }
        } else {
            self.deliver_signal(pm, target_pid, signal)
        }
    }

    /// Looks up the registered action for the signal and applies it to the
    /// target process.
    fn deliver_signal(&self, pm: &mut ProcessManager, target_pid: u32, signal: Signal) -> (r:
        Result<(), SignalError>)
        requires
            self.wf(),
            old(pm).wf(),
        ensures
            final(pm).wf(),
            final(pm)@ == spec_deliver(self@, old(pm)@, target_pid, signal).0,
            r == spec_deliver(self@, old(pm)@, target_pid, signal).1,
    {
        let handler_index = (signal.number() - 1) as usize;
        let action = self.signal_handlers[handler_index];
        match action {
            SignalAction::Default => self.default_signal_action(pm, target_pid, signal),
            SignalAction::Ignore => Ok(()),
            SignalAction::Terminate => self.terminate_process(pm, target_pid),
            SignalAction::Stop => self.stop_process(pm, target_pid),
            SignalAction::Continue => self.continue_process(pm, target_pid),
            SignalAction::Core => self.core_dump_process(pm, target_pid),
            SignalAction::Custom(handler_addr) => {
                self.call_custom_handler(target_pid, signal, handler_addr)
            },
        }
    }

    /// Falls back to the signal's built-in disposition.
    fn default_signal_action(&self, pm: &mut ProcessManager, target_pid: u32, signal: Signal) -> (r:
        Result<(), SignalError>)
        requires
            old(pm).wf(),
        ensures
            final(pm).wf(),
            final(pm)@ == spec_apply_default(old(pm)@, target_pid, signal).0,
            r == spec_apply_default(old(pm)@, target_pid, signal).1,
    {
        match signal.default_action() {
            SignalAction::Terminate => self.terminate_process(pm, target_pid),
            SignalAction::Stop => self.stop_process(pm, target_pid),
            SignalAction::Continue => self.continue_process(pm, target_pid),
            SignalAction::Ignore => Ok(()),
            _ => self.terminate_process(pm, target_pid),
        }
    }

    fn terminate_process(&self, pm: &mut ProcessManager, target_pid: u32) -> (r: Result<
        (),
        SignalError,
    >)
        requires
            old(pm).wf(),
        ensures
            final(pm).wf(),
            final(pm)@ == spec_terminate_effect(old(pm)@, target_pid).0,
            r == spec_terminate_effect(old(pm)@, target_pid).1,
    {
        if pm.terminate_process(target_pid) {
            assert(final(pm)@ =~= spec_terminate_effect(old(pm)@, target_pid).0);
            Ok(())
        } else {
            Err(SignalError::NoSuchProcess)
        }
    }

    fn stop_process(&self, pm: &mut ProcessManager, target_pid: u32) -> (r: Result<
        (),
        SignalError,
    >)
        requires
            old(pm).wf(),
        ensures
            final(pm).wf(),
            final(pm)@ == spec_state_effect(old(pm)@, target_pid, ProcessState::Sleeping).0,
            r == spec_state_effect(old(pm)@, target_pid, ProcessState::Sleeping).1,
    {
        if pm.set_process_state(target_pid, ProcessState::Sleeping) {
            assert(final(pm)@ =~= spec_state_effect(
                old(pm)@,
                target_pid,
                ProcessState::Sleeping,
            ).0);
            Ok(())
        } else {
            Err(SignalError::NoSuchProcess)
        }
    }

    fn continue_process(&self, pm: &mut ProcessManager, target_pid: u32) -> (r: Result<
        (),
        SignalError,
    >)
        requires
            old(pm).wf(),
        ensures
            final(pm).wf(),
            final(pm)@ == spec_state_effect(old(pm)@, target_pid, ProcessState::Ready).0,
            r == spec_state_effect(old(pm)@, target_pid, ProcessState::Ready).1,
    {
        if pm.set_process_state(target_pid, ProcessState::Ready) {
            assert(final(pm)@ =~= spec_state_effect(old(pm)@, target_pid, ProcessState::Ready).0);
            Ok(())
        } else {
            Err(SignalError::NoSuchProcess)
        }
    }

    /// The diagnostic dump itself is the caller's concern (it is plain
    /// output); the process is terminated like any fatal signal.
    fn core_dump_process(&self, pm: &mut ProcessManager, target_pid: u32) -> (r: Result<
        (),
        SignalError,
    >)
        requires
            old(pm).wf(),
        ensures
            final(pm).wf(),
            final(pm)@ == spec_terminate_effect(old(pm)@, target_pid).0,
            r == spec_terminate_effect(old(pm)@, target_pid).1,
    {
        self.terminate_process(pm, target_pid)
    }

    /// A custom handler address is recorded but not executed: there is no
    /// user-mode trampoline in this core.
    fn call_custom_handler(&self, _target_pid: u32, _signal: Signal, _handler_addr: u64) -> (r:
        Result<(), SignalError>)
        ensures
            r == Ok::<(), SignalError>(()),
    {
        Ok(())
    }

    /// Registers an action for a signal; refused for the uncatchable ones.
    pub fn set_signal_handler(&mut self, signal: Signal, action: SignalAction) -> (r: Result<
        (),
        SignalError,
    >)
        requires
            old(self).wf(),
        ensures
            final(self).wf(),
            spec_uncatchable(signal) ==> r == Err::<(), SignalError>(SignalError::Uncatchable)
                && final(self)@ == old(self)@,
            !spec_uncatchable(signal) ==> r is Ok && final(self)@.handlers == old(
                self,
            )@.handlers.update(signal_number(signal) - 1, action),
            final(self)@.mask == old(self)@.mask,
            final(self)@.pending == old(self)@.pending,
    {
        if signal.is_uncatchable() {
            return Err(SignalError::Uncatchable);
        }
        let handler_index = (signal.number() - 1) as usize;
        self.signal_handlers[handler_index] = action;
        Ok(())
    }

    /// Blocks a signal; refused for the uncatchable ones, which take their
    /// default action no matter the mask.
    pub fn block_signal(&mut self, signal: Signal) -> (r: Result<(), SignalError>)
        requires
            old(self).wf(),
        ensures
            final(self).wf(),
            spec_uncatchable(signal) ==> r == Err::<(), SignalError>(SignalError::Uncatchable)
                && final(self)@ == old(self)@,
            !spec_uncatchable(signal) ==> r is Ok && final(self)@.mask == (old(self)@.mask
                | signal_bit(signal)),
            final(self)@.pending == old(self)@.pending,
            final(self)@.handlers == old(self)@.handlers,
    {
        if signal.is_uncatchable() {
            return Err(SignalError::Uncatchable);
        }
        let bit = 1u64 << ((signal.number() - 1) as u64);
        self.signal_mask = self.signal_mask | bit;
        Ok(())
    }

    /// Unblocks a signal, then delivers every pending entry whose signal is
    /// no longer blocked, in arrival order (each to pid 0, the slot for the
    /// currently scheduled process); the remaining entries keep their order.
    pub fn unblock_signal(&mut self, pm: &mut ProcessManager, signal: Signal)
        requires
            old(self).wf(),
            old(pm).wf(),
        ensures
            final(self).wf(),
            final(pm).wf(),
            final(self)@ == spec_unblock(old(self)@, old(pm)@, signal).0,
            final(pm)@ == spec_unblock(old(self)@, old(pm)@, signal).1,
    {
        let bit = 1u64 << ((signal.number() - 1) as u64);
        self.signal_mask = self.signal_mask & !bit;
        self.check_pending_signals(pm);
        proof {
            assert(self@ =~= spec_unblock(old(self)@, old(pm)@, signal).0);
        }
    }

    /// Drains every pending entry whose signal is not blocked under the
    /// current mask, delivering in arrival order.
    fn check_pending_signals(&mut self, pm: &mut ProcessManager)
        requires
            old(self).wf(),
            old(pm).wf(),
        ensures
            final(self).wf(),
            final(pm).wf(),
            final(self)@.mask == old(self)@.mask,
            final(self)@.handlers == old(self)@.handlers,
            final(self)@.pending == spec_kept(old(self)@.mask, old(self)@.pending),
            final(pm)@ == spec_deliver_pending(
                old(self)@.handlers,
                old(pm)@,
                spec_released(old(self)@.mask, old(self)@.pending),
            ),
    {
        let ghost sh0 = old(self)@;
        let ghost q0 = old(self)@.pending;
        let ghost pm0 = old(pm)@;
        let mut i: usize = 0;
        let ghost mut j: int = 0;
        while i < pend_vec_len(&self.pending_signals)
            invariant
                sh0 == old(self)@,
                q0 == sh0.pending,
                pm0 == old(pm)@,
                sh0.wf(),
                self@.mask == sh0.mask,
                self@.handlers == sh0.handlers,
                self.wf(),
                pm.wf(),
                0 <= j <= q0.len(),
                self@.pending == spec_kept(sh0.mask, q0.subrange(0, j)) + q0.subrange(
                    j,
                    q0.len() as int,
                ),
                i == spec_kept(sh0.mask, q0.subrange(0, j)).len(),
                pm@ == spec_deliver_pending(
                    sh0.handlers,
                    pm0,
                    spec_released(sh0.mask, q0.subrange(0, j)),
                ),
            decreases q0.len() - j,
        {
            proof {
                assert(q0.subrange(0, j + 1) =~= q0.subrange(0, j).push(q0[j]));
                lemma_kept_push(sh0.mask, q0.subrange(0, j), q0[j]);
                lemma_released_push(sh0.mask, q0.subrange(0, j), q0[j]);
                lemma_deliver_pending_push(
                    sh0.handlers,
                    pm0,
                    spec_released(sh0.mask, q0.subrange(0, j)),
                    q0[j],
                );
            }
            let pending = *pend_vec_get(&self.pending_signals, i);
            assert(pending == q0[j]);
            if !self.blocked(pending.signal) {
                let _ = self.deliver_signal(pm, 0, pending.signal);
                let _ = pend_vec_remove(&mut self.pending_signals, i);
                proof {
                    assert(self@.pending =~= spec_kept(sh0.mask, q0.subrange(0, j + 1))
                        + q0.subrange(j + 1, q0.len() as int));
                    assert(spec_released(sh0.mask, q0.subrange(0, j + 1)) =~= spec_released(
                        sh0.mask,
                        q0.subrange(0, j),
                    ).push(q0[j]));
                }
            } else {
                i = i + 1;
                proof {
                    assert(self@.pending =~= spec_kept(sh0.mask, q0.subrange(0, j + 1))
                        + q0.subrange(j + 1, q0.len() as int));
                    assert(spec_released(sh0.mask, q0.subrange(0, j + 1)) =~= spec_released(
                        sh0.mask,
                        q0.subrange(0, j),
                    ));
                }
            }
            proof {
                j = j + 1;
            }
        }
        proof {
            assert(q0.subrange(0, j) =~= q0);
            assert(self@.pending =~= spec_kept(sh0.mask, q0));
        }
    }

    /// A keyboard interrupt sends SIGINT to the currently scheduled process
    /// on behalf of the kernel (sender pid 0).
    pub fn handle_keyboard_interrupt(&mut self, pm: &mut ProcessManager)
        requires
            old(self).wf(),
            old(pm).wf(),
        ensures
            final(self).wf(),
            final(pm).wf(),
            final(self)@ == spec_send(
                old(self)@,
                old(pm)@,
                old(pm)@.current_pid,
                Signal::SIGINT,
                0,
            ).0,
            final(pm)@ == spec_send(
                old(self)@,
                old(pm)@,
                old(pm)@.current_pid,
                Signal::SIGINT,
                0,
            ).1,
    {
        let current_pid = pm.current_pid();
        let _ = self.send_signal(pm, current_pid, Signal::SIGINT, 0);
    }

    pub fn get_signal_mask(&self) -> (r: u64)
        ensures
            r == self@.mask,
    {
        self.signal_mask
    }

    pub fn pending_signals_count(&self) -> (r: usize)
        ensures
            r == self@.pending.len(),
    {
        pend_vec_len(&self.pending_signals)
    }
}

/// Sends a signal given by number; `InvalidSignal` if the number maps to no
/// signal.
pub fn send_signal(
    handler: &mut SignalHandler,
    pm: &mut ProcessManager,
    target_pid: u32,
    signal_num: i32,
    sender_pid: u32,
) -> (r: Result<(), SignalError>)
    requires
        old(handler).wf(),
        old(pm).wf(),
    ensures
        final(handler).wf(),
        final(pm).wf(),
        spec_signal(signal_num) is None ==> r == Err::<(), SignalError>(SignalError::InvalidSignal)
            && final(handler)@ == old(handler)@ && final(pm)@ == old(pm)@,
        spec_signal(signal_num) is Some ==> final(handler)@ == spec_send(
            old(handler)@,
            old(pm)@,
            target_pid,
            spec_signal(signal_num)->Some_0,
            sender_pid,
        ).0 && final(pm)@ == spec_send(
            old(handler)@,
            old(pm)@,
            target_pid,
            spec_signal(signal_num)->Some_0,
            sender_pid,
        ).1 && r == spec_send(
            old(handler)@,
            old(pm)@,
            target_pid,
            spec_signal(signal_num)->Some_0,
            sender_pid,
        ).2,
{
    if let Some(signal) = Signal::from_i32(signal_num) {
        handler.send_signal(pm, target_pid, signal, sender_pid)
    } else {
        Err(SignalError::InvalidSignal)
    }
}

/// Registers an action for a signal given by number.
pub fn set_signal_handler(
    handler: &mut SignalHandler,
    signal_num: i32,
    action: SignalAction,
) -> (r: Result<(), SignalError>)
    requires
        old(handler).wf(),
    ensures
        final(handler).wf(),
        spec_signal(signal_num) is None ==> r == Err::<(), SignalError>(SignalError::InvalidSignal)
            && final(handler)@ == old(handler)@,
        spec_signal(signal_num) is Some && spec_uncatchable(spec_signal(signal_num)->Some_0) ==> r
            == Err::<(), SignalError>(SignalError::Uncatchable) && final(handler)@ == old(
            handler,
        )@,
        spec_signal(signal_num) is Some && !spec_uncatchable(spec_signal(signal_num)->Some_0) ==> r
            is Ok && final(handler)@.handlers == old(handler)@.handlers.update(
            signal_num - 1,
            action,
        ) && final(handler)@.mask == old(handler)@.mask && final(handler)@.pending == old(
            handler,
        )@.pending,
{
    if let Some(signal) = Signal::from_i32(signal_num) {
        handler.set_signal_handler(signal, action)
    } else {
        Err(SignalError::InvalidSignal)
    }
}

/// Blocks a signal given by number; the uncatchable signals are refused.
pub fn block_signal(handler: &mut SignalHandler, signal_num: i32) -> (r: Result<(), SignalError>)
    requires
        old(handler).wf(),
    ensures
        final(handler).wf(),
        spec_signal(signal_num) is None ==> r == Err::<(), SignalError>(SignalError::InvalidSignal)
            && final(handler)@ == old(handler)@,
        spec_signal(signal_num) is Some && spec_uncatchable(spec_signal(signal_num)->Some_0) ==> r
            == Err::<(), SignalError>(SignalError::Uncatchable) && final(handler)@ == old(
            handler,
        )@,
        spec_signal(signal_num) is Some && !spec_uncatchable(spec_signal(signal_num)->Some_0) ==> r
            is Ok && final(handler)@.mask == (old(handler)@.mask | signal_bit(
            spec_signal(signal_num)->Some_0,
        )) && final(handler)@.pending == old(handler)@.pending && final(handler)@.handlers == old(
            handler,
        )@.handlers,
{
    if let Some(signal) = Signal::from_i32(signal_num) {
        handler.block_signal(signal)
    } else {
        Err(SignalError::InvalidSignal)
    }
}

/// Unblocks a signal given by number and drains what it releases.
pub fn unblock_signal(
    handler: &mut SignalHandler,
    pm: &mut ProcessManager,
    signal_num: i32,
) -> (r: Result<(), SignalError>)
    requires
        old(handler).wf(),
        old(pm).wf(),
    ensures
        final(handler).wf(),
        final(pm).wf(),
        spec_signal(signal_num) is None ==> r == Err::<(), SignalError>(SignalError::InvalidSignal)
            && final(handler)@ == old(handler)@ && final(pm)@ == old(pm)@,
        spec_signal(signal_num) is Some ==> r is Ok && final(handler)@ == spec_unblock(
            old(handler)@,
            old(pm)@,
            spec_signal(signal_num)->Some_0,
        ).0 && final(pm)@ == spec_unblock(
            old(handler)@,
            old(pm)@,
            spec_signal(signal_num)->Some_0,
        ).1,
{
    if let Some(signal) = Signal::from_i32(signal_num) {
        handler.unblock_signal(pm, signal);
        Ok(())
    } else {
        Err(SignalError::InvalidSignal)
    }
}

/// The block mask and the number of queued signals.
pub fn get_signal_info(handler: &SignalHandler) -> (r: (u64, usize))
    ensures
        r.0 == handler@.mask,
        r.1 == handler@.pending.len(),
{
    (handler.get_signal_mask(), handler.pending_signals_count())
}

} // verus!
