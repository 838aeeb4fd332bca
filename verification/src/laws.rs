//! System-wide laws of the kernel core, stated and proved over the spec
//! transitions that the executable functions refine.

use vstd::prelude::*;

use crate::interrupt::{spec_handle, GicView, SPURIOUS_IRQ_FLOOR};
use crate::process::{
    spec_charge, spec_charge_process, spec_pick_from, spec_schedule, spec_terminate,
    spec_terminate_allowed, Process, ProcessState, ProcessTableView, INIT_PID,
};
use crate::signals::{
    signal_bit, signal_number, spec_blocked, spec_deliver_pending, spec_kept, spec_released,
    spec_send, spec_terminate_effect, spec_unblock, spec_uncatchable, PendingSignal, Signal,
    SignalError, SignalHandlerView,
};
use crate::syscalls::{spec_handle_syscall, spec_syscall_mapped, KernelView, ENOSYS_CODE};

verus! {

// ---------------------------------------------------------------------
// Scheduling
// ---------------------------------------------------------------------

/// A table at the start of a fair round: at least one process and every
/// entry `Ready`; the charged times, the time slices and the current pid
/// are arbitrary.
pub open spec fn rr_ready(v: ProcessTableView) -> bool {
    &&& v.wf()
    &&& v.processes.len() >= 1
    &&& forall|i: int|
        0 <= i < v.processes.len() ==> (#[trigger] v.processes[i]).state == ProcessState::Ready
}

/// The index a round's scan starts from: the current process's slot, or
/// the top of the table when no entry is current.
pub open spec fn rr_start(v: ProcessTableView) -> int {
    if 1 <= v.current_pid <= v.processes.len() {
        v.current_pid - 1
    } else {
        0
    }
}

/// The table after `k` scheduler steps, run from `rr_run(v, k - 1)`.
pub open spec fn rr_run(v: ProcessTableView, k: int) -> ProcessTableView
    decreases k,
{
    if k <= 0 {
        v
    } else {
        spec_schedule(rr_run(v, k - 1)).0
    }
}

/// The pid the `k`-th scheduler step hands back.
pub open spec fn rr_trace(v: ProcessTableView, k: int) -> Option<u32> {
    spec_schedule(rr_run(v, k - 1)).1
}

/// The remainder facts the round lemmas lean on.
proof fn proof_mod_facts(k: int, n: int)
    requires
        0 < n,
        0 <= k,
    ensures
        k < n ==> k % n == k,
        k == n ==> k % n == 0,
        0 <= k % n < n,
{
    if k < n {
        vstd::arithmetic::div_mod::lemma_small_mod(k as nat, n as nat);
    }
    if k == n {
        vstd::arithmetic::div_mod::lemma_mod_self_0(n);
    }
    vstd::arithmetic::div_mod::lemma_mod_bound(k, n);
}

/// What holds through a fair round after `k` steps: every entry is `Ready`
/// except the one step `k` promoted — the current process, which is at
/// worst still running — so the next step hands the processor one slot
/// further on.
spec fn rr_inv(v0: ProcessTableView, v: ProcessTableView, k: int) -> bool {
    let n = v0.processes.len() as int;
    let c = (rr_start(v0) + k) % n;
    &&& v.wf()
    &&& v.processes.len() == n
    &&& forall|j: int|
        0 <= j < n && j != c ==> (#[trigger] v.processes[j]).state == ProcessState::Ready
    &&& (v.processes[c].state == ProcessState::Ready || v.processes[c].state
        == ProcessState::Running)
    &&& v.current_pid == v0.processes[c].pid
}

/// The first step of a fair round promotes the entry one past the start.
proof fn lemma_rr_first(v0: ProcessTableView)
    requires
        rr_ready(v0),
    ensures
        rr_inv(v0, spec_schedule(v0).0, 1),
        spec_schedule(v0).1 == Some::<u32>(
            v0.processes[(rr_start(v0) + 1) % (v0.processes.len() as int)].pid,
        ),
{
    let n = v0.processes.len() as int;
    let c0 = rr_start(v0);
    proof_mod_facts(c0 + 1, n);
    let s1 = spec_charge(v0.processes, v0.current_pid);
    assert forall|j: int|
        0 <= j < n implies (#[trigger] s1[j]).state == ProcessState::Ready && s1[j].pid
        == v0.processes[j].pid && s1[j].used_time < s1[j].time_slice by {
        if 1 <= v0.current_pid <= n && j == v0.current_pid - 1 {
            assert(s1[j] == spec_charge_process(v0.processes[j]));
        }
    }
    let probe = (c0 + 1) % n;
    assert(spec_pick_from(s1, c0, 1) == probe);
    let v2 = spec_schedule(v0).0;
    assert(v2.current_pid == v0.processes[probe].pid);
    assert(v2.processes[probe].state == ProcessState::Running);
    assert forall|j: int|
        0 <= j < n && j != probe implies (#[trigger] v2.processes[j]).state
        == ProcessState::Ready by {
        assert(v2.processes[j] == s1[j]);
    }
    assert(v2.wf());
}

/// Each later step of the round charges the runner, hands the processor
/// over, and promotes the entry one slot further on, wrapping.
proof fn lemma_rr_step(v0: ProcessTableView, v: ProcessTableView, k: int)
    requires
        rr_ready(v0),
        rr_inv(v0, v, k),
        1 <= k < v0.processes.len(),
    ensures
        rr_inv(v0, spec_schedule(v).0, k + 1),
        spec_schedule(v).1 == Some::<u32>(
            v0.processes[(rr_start(v0) + k + 1) % (v0.processes.len() as int)].pid,
        ),
{
    let n = v0.processes.len() as int;
    let c0 = rr_start(v0);
    vstd::arithmetic::div_mod::lemma_mod_bound(c0 + k, n);
    vstd::arithmetic::div_mod::lemma_mod_bound(c0 + k + 1, n);
    let c = (c0 + k) % n;
    let c2 = (c0 + k + 1) % n;

    // Two consecutive slots of a round differ: the table has at least two
    // entries whenever a step beyond the first exists.
    vstd::arithmetic::div_mod::lemma_add_mod_noop(c0 + k, 1, n);
    vstd::arithmetic::div_mod::lemma_small_mod(1nat, n as nat);
    assert(c2 == (c + 1) % n);
    proof_mod_facts(c + 1, n);
    assert(c2 != c);

    // The current process sits at slot c.
    assert(v.processes[c].pid == c + 1);
    assert(v.current_pid == c + 1);
    let s1 = spec_charge(v.processes, v.current_pid);
    assert(s1 == v.processes.update(c, spec_charge_process(v.processes[c])));
    assert(s1[c].state == ProcessState::Ready || s1[c].state == ProcessState::Running);
    assert(s1[c2].state == ProcessState::Ready);
    assert(spec_pick_from(s1, c, 1) == c2);

    let v2 = spec_schedule(v).0;
    // The hand-over leaves the old runner Ready again, whatever its charge
    // did, and promotes slot c2.
    assert(v2.processes[c].state == ProcessState::Ready);
    assert(v2.processes[c2].state == ProcessState::Running);
    assert(v2.current_pid == s1[c2].pid);
    assert(v2.current_pid == v0.processes[c2].pid);
    assert forall|j: int|
        0 <= j < n && j != c2 implies (#[trigger] v2.processes[j]).state
        == ProcessState::Ready by {
        if j != c {
            assert(v2.processes[j] == v.processes[j]);
        }
    }
    assert forall|j: int|
        0 <= j < n implies (#[trigger] v2.processes[j]).pid == j + 1
            && v2.processes[j].used_time < v2.processes[j].time_slice by {
        if j == c {
            assert(s1[j] == spec_charge_process(v.processes[j]));
        }
    }
    assert(v2.wf());
}

/// After `k` steps of a fair round, step `k` returned the pid at slot
/// `(start + k) mod N` and the round invariant holds.
proof fn lemma_rr_run(v0: ProcessTableView, k: int)
    requires
        rr_ready(v0),
        1 <= k <= v0.processes.len(),
    ensures
        rr_inv(v0, rr_run(v0, k), k),
        rr_trace(v0, k) == Some::<u32>(
            v0.processes[(rr_start(v0) + k) % (v0.processes.len() as int)].pid,
        ),
    decreases k,
{
    if k == 1 {
        assert(rr_run(v0, 0) == v0);
        lemma_rr_first(v0);
    } else {
        lemma_rr_run(v0, k - 1);
        lemma_rr_step(v0, rr_run(v0, k - 1), k - 1);
    }
}

/// Two distinct steps of one round land on distinct slots.
proof fn lemma_round_slots_distinct(c0: int, k1: int, k2: int, n: int)
    requires
        0 < n,
        0 <= c0,
        0 <= k1 < k2,
        k2 - k1 < n,
    ensures
        (c0 + k1) % n != (c0 + k2) % n,
{
    if (c0 + k1) % n == (c0 + k2) % n {
        vstd::arithmetic::div_mod::lemma_mod_equivalence(c0 + k2, c0 + k1, n);
        assert((k2 - k1) % n == 0);
        vstd::arithmetic::div_mod::lemma_small_mod((k2 - k1) as nat, n as nat);
        assert(false);
    }
}

/// Round-robin fairness: from a table of N processes that are all `Ready`
/// (whatever their charged times and whoever was current), N scheduler
/// steps return each pid exactly once, in table order from the slot after
/// the current one — step k hands back the pid at slot (start + k) mod N,
/// no pid repeats within the round, and every pid appears.
pub proof fn lemma_round_robin_fairness(v: ProcessTableView)
    requires
        rr_ready(v),
    ensures
        forall|k: int|
            1 <= k <= v.processes.len() ==> #[trigger] rr_trace(v, k) == Some::<u32>(
                v.processes[(rr_start(v) + k) % (v.processes.len() as int)].pid,
            ),
        forall|k1: int, k2: int|
            1 <= k1 < k2 <= v.processes.len() ==> #[trigger] rr_trace(v, k1) != #[trigger] rr_trace(
                v,
                k2,
            ),
        forall|i: int|
            #![trigger v.processes[i]]
            0 <= i < v.processes.len() ==> exists|k: int|
                1 <= k <= v.processes.len() && #[trigger] rr_trace(v, k) == Some::<u32>(
                    v.processes[i].pid,
                ),
{
    let n = v.processes.len() as int;
    let c0 = rr_start(v);
    assert forall|k: int| 1 <= k <= n implies #[trigger] rr_trace(v, k) == Some::<u32>(
        v.processes[(c0 + k) % n].pid,
    ) by {
        lemma_rr_run(v, k);
    }
    assert forall|k1: int, k2: int| 1 <= k1 < k2 <= n implies #[trigger] rr_trace(v, k1)
        != #[trigger] rr_trace(v, k2) by {
        lemma_rr_run(v, k1);
        lemma_rr_run(v, k2);
        vstd::arithmetic::div_mod::lemma_mod_bound(c0 + k1, n);
        vstd::arithmetic::div_mod::lemma_mod_bound(c0 + k2, n);
        lemma_round_slots_distinct(c0, k1, k2, n);
        assert(v.processes[(c0 + k1) % n].pid == (c0 + k1) % n + 1);
        assert(v.processes[(c0 + k2) % n].pid == (c0 + k2) % n + 1);
    }
    assert forall|i: int| #![trigger v.processes[i]] 0 <= i < n implies exists|k: int|
        1 <= k <= n && #[trigger] rr_trace(v, k) == Some::<u32>(v.processes[i].pid) by {
        let k = if i > c0 {
            i - c0
        } else {
            i - c0 + n
        };
        lemma_rr_run(v, k);
        if i > c0 {
            vstd::arithmetic::div_mod::lemma_small_mod(i as nat, n as nat);
            assert((c0 + k) % n == i);
        } else {
            vstd::arithmetic::div_mod::lemma_add_mod_noop(i, n, n);
            vstd::arithmetic::div_mod::lemma_mod_self_0(n);
            vstd::arithmetic::div_mod::lemma_small_mod(i as nat, n as nat);
            assert((c0 + k) % n == (i + n) % n);
            assert((c0 + k) % n == i);
        }
        assert(rr_trace(v, k) == Some::<u32>(v.processes[i].pid));
    }
}

/// Quota enforcement: a tick charged to a `Running` process raises its
/// used time by exactly one, and the process yields — demoted with the
/// quota reset — exactly when the charged time reaches its slice, never
/// earlier and never later.
pub proof fn lemma_quota_enforcement(p: Process)
    requires
        p.state == ProcessState::Running,
        p.used_time < p.time_slice,
    ensures
        p.used_time + 1 < p.time_slice ==> spec_charge_process(p) == (Process {
            used_time: (p.used_time + 1) as u32,
            ..p
        }),
        p.used_time + 1 == p.time_slice ==> spec_charge_process(p) == (Process {
            state: ProcessState::Ready,
            used_time: 0,
            ..p
        }),
        (spec_charge_process(p).state == ProcessState::Ready) <==> p.used_time + 1
            == p.time_slice,
{
}

/// One scheduler tick charges exactly the current process and leaves every
/// other table entry untouched by the charge.
pub proof fn lemma_schedule_charges_current(v: ProcessTableView)
    requires
        v.wf(),
        1 <= v.current_pid <= v.processes.len(),
    ensures
        spec_charge(v.processes, v.current_pid)[v.current_pid - 1] == spec_charge_process(
            v.processes[v.current_pid - 1],
        ),
        forall|j: int|
            0 <= j < v.processes.len() && j != v.current_pid - 1 ==> #[trigger] spec_charge(
                v.processes,
                v.current_pid,
            )[j] == v.processes[j],
{
}

/// A non-negative pick is a table index holding a `Ready` process.
proof fn lemma_pick_valid(s: Seq<Process>, start: int, k: int)
    requires
        0 <= start,
        1 <= k,
    ensures
        spec_pick_from(s, start, k) == -1 || (0 <= spec_pick_from(s, start, k) < s.len()
            && s[spec_pick_from(s, start, k)].state == ProcessState::Ready),
    decreases s.len() + 1 - k,
{
    if !(k > s.len() || k < 1 || s.len() == 0) {
        vstd::arithmetic::div_mod::lemma_mod_bound(start + k, s.len() as int);
        if s[(start + k) % (s.len() as int)].state != ProcessState::Ready {
            lemma_pick_valid(s, start, k + 1);
        }
    }
}

/// At most one process holds `Running` at any instant: when every running
/// table entry is the current process, one scheduler step keeps it so —
/// the promoted process becomes the current one and the only runner.
pub proof fn lemma_single_runner(v: ProcessTableView)
    requires
        v.wf(),
        forall|i: int|
            0 <= i < v.processes.len() && (#[trigger] v.processes[i]).state
                == ProcessState::Running ==> v.processes[i].pid == v.current_pid,
    ensures
        forall|i: int|
            0 <= i < spec_schedule(v).0.processes.len() && (#[trigger] spec_schedule(
                v,
            ).0.processes[i]).state == ProcessState::Running ==> spec_schedule(v).0.processes[i].pid
                == spec_schedule(v).0.current_pid,
        forall|i: int, j: int|
            0 <= i < spec_schedule(v).0.processes.len() && 0 <= j < spec_schedule(
                v,
            ).0.processes.len() && (#[trigger] spec_schedule(v).0.processes[i]).state
                == ProcessState::Running && (#[trigger] spec_schedule(v).0.processes[j]).state
                == ProcessState::Running ==> i == j,
{
    let n = v.processes.len() as int;
    let s1 = spec_charge(v.processes, v.current_pid);

    // Charging creates no runner and touches no pid.
    assert forall|i: int|
        0 <= i < n implies (#[trigger] s1[i]).pid == v.processes[i].pid && (s1[i].state
        == ProcessState::Running ==> v.processes[i].state == ProcessState::Running) by {}

    let start: int = if 1 <= v.current_pid <= s1.len() {
        v.current_pid - 1
    } else {
        0
    };
    let pick = spec_pick_from(s1, start, 1);
    lemma_pick_valid(s1, start, 1);
    let v2 = spec_schedule(v).0;

    if pick == -1 {
        assert forall|i: int|
            0 <= i < v2.processes.len() && (#[trigger] v2.processes[i]).state
                == ProcessState::Running implies v2.processes[i].pid == v2.current_pid by {
            assert(v.processes[i].state == ProcessState::Running);
        }
    } else {
        assert forall|i: int|
            0 <= i < v2.processes.len() && (#[trigger] v2.processes[i]).state
                == ProcessState::Running implies v2.processes[i].pid == v2.current_pid by {
            if i != pick {
                assert(s1[i].state == ProcessState::Running);
                assert(v.processes[i].state == ProcessState::Running);
                assert(v.processes[i].pid == v.current_pid);
                assert(i == v.current_pid - 1);
                assert(false);
            }
        }
    }
    assert forall|i: int, j: int|
        0 <= i < v2.processes.len() && 0 <= j < v2.processes.len() && (
        #[trigger] v2.processes[i]).state == ProcessState::Running && (
        #[trigger] v2.processes[j]).state == ProcessState::Running implies i == j by {
        assert(v2.processes[i].pid == v2.current_pid);
        assert(v2.processes[j].pid == v2.current_pid);
        assert(v2.processes[i].pid == i + 1 && v2.processes[j].pid == j + 1);
    }
}

// ---------------------------------------------------------------------
// Process lifecycle
// ---------------------------------------------------------------------

/// Re-parenting: terminating pid `p` re-parents every process whose parent
/// was `p` to init, touches no pid, no other parent and no other state —
/// and a termination request against init itself is never honoured.
pub proof fn lemma_reparenting(s: Seq<Process>, pid: u32)
    ensures
        !spec_terminate_allowed(s, INIT_PID),
        spec_terminate(s, pid).len() == s.len(),
        forall|i: int|
            0 <= i < s.len() && (#[trigger] s[i]).ppid == pid ==> spec_terminate(s, pid)[i].ppid
                == INIT_PID,
        forall|i: int|
            0 <= i < s.len() && (#[trigger] s[i]).ppid != pid ==> spec_terminate(s, pid)[i].ppid
                == s[i].ppid,
        forall|i: int| 0 <= i < s.len() ==> (#[trigger] spec_terminate(s, pid)[i]).pid == s[i].pid,
        forall|i: int|
            0 <= i < s.len() && (#[trigger] s[i]).pid != pid ==> spec_terminate(s, pid)[i].state
                == s[i].state,
{
}

// ---------------------------------------------------------------------
// Signals
// ---------------------------------------------------------------------

/// Uncatchable signals: sending SIGKILL is never queued, whatever the
/// mask: it goes straight to the terminate action, soft-deleting the
/// target when the table honours the request, and answering the lookup
/// failure otherwise — in particular init (pid 1), which never terminates,
/// shrugs even SIGKILL off.  (That registering a handler for — or blocking
/// — SIGKILL or SIGSTOP always fails is part of the contracts of
/// `set_signal_handler` and `block_signal`.)
pub proof fn lemma_uncatchable_signals(
    sh: SignalHandlerView,
    pm: ProcessTableView,
    target: u32,
    sender: u32,
)
    requires
        sh.wf(),
    ensures
        spec_send(sh, pm, target, Signal::SIGKILL, sender).0 == sh,
        spec_send(sh, pm, target, Signal::SIGKILL, sender).1 == spec_terminate_effect(
            pm,
            target,
        ).0,
        spec_send(sh, pm, target, Signal::SIGKILL, sender).2 == spec_terminate_effect(
            pm,
            target,
        ).1,
        spec_terminate_allowed(pm.processes, target) ==> spec_send(
            sh,
            pm,
            target,
            Signal::SIGKILL,
            sender,
        ).1.processes == spec_terminate(pm.processes, target),
        target == INIT_PID ==> spec_send(sh, pm, target, Signal::SIGKILL, sender).1 == pm
            && spec_send(sh, pm, target, Signal::SIGKILL, sender).2 == Err::<(), SignalError>(
            SignalError::NoSuchProcess,
        ),
{
    assert(spec_uncatchable(Signal::SIGKILL));
    assert(sh.handlers[signal_number(Signal::SIGKILL) - 1] == crate::signals::SignalAction::Terminate);
}

/// Pending/blocked ordering: with signal `a` blocked and the queue empty,
/// two sends of `a` queue two entries in send order; unblocking `a` then
/// delivers exactly those two, oldest first, and leaves the queue empty.
pub proof fn lemma_pending_fifo(
    sh: SignalHandlerView,
    pm: ProcessTableView,
    a: Signal,
    sender1: u32,
    sender2: u32,
    target1: u32,
    target2: u32,
)
    requires
        sh.wf(),
        sh.pending == Seq::<PendingSignal>::empty(),
        spec_blocked(sh.mask, a),
        !spec_uncatchable(a),
    ensures
        ({
            let e1 = PendingSignal { signal: a, sender_pid: sender1 };
            let e2 = PendingSignal { signal: a, sender_pid: sender2 };
            let (sh1, pm1, r1) = spec_send(sh, pm, target1, a, sender1);
            let (sh2, pm2, r2) = spec_send(sh1, pm1, target2, a, sender2);
            let (sh3, pm3) = spec_unblock(sh2, pm2, a);
            &&& r1 == Ok::<(), SignalError>(())
            &&& r2 == Ok::<(), SignalError>(())
            &&& sh2.pending == seq![e1, e2]
            &&& sh3.pending.len() == 0
            &&& pm3 == spec_deliver_pending(sh2.handlers, pm2, seq![e1, e2])
        }),
{
    let e1 = PendingSignal { signal: a, sender_pid: sender1 };
    let e2 = PendingSignal { signal: a, sender_pid: sender2 };
    let (sh1, pm1, r1) = spec_send(sh, pm, target1, a, sender1);
    assert(sh1.pending =~= seq![e1]);
    let (sh2, pm2, r2) = spec_send(sh1, pm1, target2, a, sender2);
    assert(sh2.pending =~= seq![e1, e2]);

    let mask2 = sh2.mask & !signal_bit(a);
    let m = sh2.mask;
    let k = (signal_number(a) - 1) as u64;
    assert((m & !(1u64 << k)) & (1u64 << k) == 0u64) by (bit_vector);
    assert(signal_bit(a) == 1u64 << k);
    assert(!spec_blocked(mask2, a));

    let q = seq![e1, e2];
    assert(q.subrange(1, 2) =~= seq![e2]);
    assert(seq![e2].subrange(1, 1) =~= Seq::<PendingSignal>::empty());
    assert(spec_kept(mask2, Seq::<PendingSignal>::empty()) =~= Seq::<PendingSignal>::empty());
    assert(spec_kept(mask2, seq![e2]) =~= Seq::<PendingSignal>::empty());
    assert(spec_kept(mask2, q) =~= Seq::<PendingSignal>::empty());
    assert(spec_released(mask2, Seq::<PendingSignal>::empty()) =~= Seq::<PendingSignal>::empty());
    assert(spec_released(mask2, seq![e2]) =~= seq![e2]);
    assert(spec_released(mask2, q) =~= q);
}

// ---------------------------------------------------------------------
// Interrupts
// ---------------------------------------------------------------------

/// Acknowledge/EOI pairing: one handler round answers a non-spurious
/// acknowledge value with exactly one end-of-interrupt write of that same
/// value, and a spurious value (or an idle controller) with none.
pub proof fn lemma_acknowledge_eoi_pairing(g: GicView)
    ensures
        spec_handle(g).1 is Some ==> g.pending_acks.len() > 0 && (g.pending_acks[0] & 0x3FF)
            < SPURIOUS_IRQ_FLOOR && spec_handle(g).0.eoi_writes == g.eoi_writes.push(
            g.pending_acks[0],
        ) && spec_handle(g).1 == Some((g.pending_acks[0] & 0x3FF) as u32),
        spec_handle(g).1 is None ==> spec_handle(g).0.eoi_writes == g.eoi_writes,
{
}

// ---------------------------------------------------------------------
// Syscalls
// ---------------------------------------------------------------------

/// Unknown syscall: a number outside the mapped table answers with the
/// not-implemented code and leaves process, signal, descriptor and file
/// state untouched.
pub proof fn lemma_unknown_syscall(k: KernelView, syscall_num: u64, arg0: u64, arg1: u64, arg2: u64)
    requires
        !spec_syscall_mapped(syscall_num),
    ensures
        spec_handle_syscall(k, syscall_num, arg0, arg1, arg2).0 == k,
        spec_handle_syscall(k, syscall_num, arg0, arg1, arg2).1 == ENOSYS_CODE,
{
}

} // verus!
