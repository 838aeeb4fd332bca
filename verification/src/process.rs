//! The process table and the round-robin scheduler.
//!
//! The table owns every live process.  Process identifiers are handed out
//! monotonically starting at 1, entries are never removed (termination is a
//! soft delete), so the process with pid `p` sits at table index `p - 1`.

use vstd::prelude::*;

verus! {

pub const MAX_PROCESSES: usize = 64;

pub const DEFAULT_TIME_SLICE: u32 = 10;

/// The pid every orphan is re-parented to when its parent terminates.
pub const INIT_PID: u32 = 1;

#[derive(Clone, Copy, Debug, PartialEq, Eq, Structural)]
pub enum ProcessState {
    Ready,
    Running,
    Sleeping,
    Terminated,
}

#[derive(Clone, Copy, Debug, PartialEq, Eq, Structural)]
pub struct Process {
    pub pid: u32,
    pub ppid: u32,
    pub state: ProcessState,
    pub stack_ptr: u64,
    pub entry_point: u64,
    /// Carried but not consulted by the round-robin policy.
    pub priority: u8,
    /// Scheduling quota in timer ticks.
    pub time_slice: u32,
    /// Ticks charged since the process was last demoted.
    pub used_time: u32,
}

/// The processes a `heapless::Vec<Process, MAX_PROCESSES>` holds, in order.
pub uninterp spec fn proc_vec_model(v: heapless::Vec<Process, MAX_PROCESSES>) -> Seq<Process>;

/// Relies on `heapless::Vec::new`: the new vector is empty.
#[verifier::external_body]
fn proc_vec_new() -> (r: heapless::Vec<Process, MAX_PROCESSES>)
    ensures
        proc_vec_model(r) == Seq::<Process>::empty(),
{
    heapless::Vec::new()
}

/// Relies on `heapless::Vec::push`: appends when below capacity, otherwise
/// hands the item back and leaves the vector unchanged.
#[verifier::external_body]
fn proc_vec_push(v: &mut heapless::Vec<Process, MAX_PROCESSES>, item: Process) -> (r: Result<
    (),
    Process,
>)
    ensures
        r is Ok <==> proc_vec_model(*old(v)).len() < MAX_PROCESSES,
        r is Ok ==> proc_vec_model(*final(v)) == proc_vec_model(*old(v)).push(item),
        r is Err ==> r->Err_0 == item && proc_vec_model(*final(v)) == proc_vec_model(*old(v)),
{
    v.push(item)
}

/// Relies on the slice `len` reached through `heapless::Vec`'s `Deref`.
#[verifier::external_body]
fn proc_vec_len(v: &heapless::Vec<Process, MAX_PROCESSES>) -> (r: usize)
    ensures
        r == proc_vec_model(*v).len(),
{
    v.len()
}

/// Relies on the slice indexing reached through `heapless::Vec`'s `Deref`.
#[verifier::external_body]
fn proc_vec_get(v: &heapless::Vec<Process, MAX_PROCESSES>, i: usize) -> (r: &Process)
    requires
        i < proc_vec_model(*v).len(),
    ensures
        *r == proc_vec_model(*v)[i as int],
{
    &v[i]
}

/// Relies on the slice indexing reached through `heapless::Vec`'s `DerefMut`.
#[verifier::external_body]
fn proc_vec_set(v: &mut heapless::Vec<Process, MAX_PROCESSES>, i: usize, item: Process)
    requires
        i < proc_vec_model(*old(v)).len(),
    ensures
        proc_vec_model(*final(v)) == proc_vec_model(*old(v)).update(i as int, item),
{
    v[i] = item;
}

/// Relies on `heapless::Vec::as_slice`: the slice holds the contents.
#[verifier::external_body]
fn proc_vec_as_slice(v: &heapless::Vec<Process, MAX_PROCESSES>) -> (r: &[Process])
    ensures
        r@ == proc_vec_model(*v),
{
    v.as_slice()
}

/// The mathematical state of a process table.
#[verifier::ext_equal]
pub struct ProcessTableView {
    pub processes: Seq<Process>,
    pub current_pid: u32,
    pub next_pid: u32,
    pub scheduler_tick: u32,
}

impl ProcessTableView {
    /// Well-formedness: the table is bounded, pids are dense (the entry at
    /// index `i` has pid `i + 1`, so `next_pid` is one past the table), and
    /// no process has exhausted its quota without being demoted.
    pub open spec fn wf(self) -> bool {
        &&& self.processes.len() <= MAX_PROCESSES
        &&& self.next_pid == self.processes.len() + 1
        &&& forall|i: int|
            0 <= i < self.processes.len() ==> (#[trigger] self.processes[i]).pid == i + 1
        &&& forall|i: int|
            0 <= i < self.processes.len() ==> (#[trigger] self.processes[i]).used_time
                < self.processes[i].time_slice
    }
}

/// The process a fresh `create_process` call builds.
pub open spec fn spec_new_process(pid: u32, parent_pid: u32, entry_point: u64) -> Process {
    Process {
        pid,
        ppid: parent_pid,
        state: ProcessState::Ready,
        stack_ptr: (0x400000 + pid * 0x100000) as u64,
        entry_point,
        priority: 128,
        time_slice: DEFAULT_TIME_SLICE,
        used_time: 0,
    }
}

/// A process with its state overwritten.
pub open spec fn spec_with_state(p: Process, state: ProcessState) -> Process {
    Process { state, ..p }
}

/// One tick charged to the current process: its used time grows by one,
/// and it is demoted to `Ready` (quota reset) as soon as the quota is
/// exhausted or it is no longer running.
pub open spec fn spec_charge_process(p: Process) -> Process {
    let charged = Process { used_time: (p.used_time + 1) as u32, ..p };
    if charged.used_time >= charged.time_slice || charged.state != ProcessState::Running {
        Process {
            state: if p.state == ProcessState::Running {
                ProcessState::Ready
            } else {
                p.state
            },
            used_time: 0,
            ..p
        }
    } else {
        charged
    }
}

/// The table after one tick is charged to the process with pid
/// `current_pid`, if it exists (in a well-formed table it sits at index
/// `current_pid - 1`).
pub open spec fn spec_charge(s: Seq<Process>, current_pid: u32) -> Seq<Process> {
    if 1 <= current_pid <= s.len() {
        s.update(current_pid - 1, spec_charge_process(s[current_pid - 1]))
    } else {
        s
    }
}

/// The index of the first `Ready` process at offsets `k`, `k + 1`, ... from
/// `start`, wrapping around the table; `-1` if none is ready.
pub open spec fn spec_pick_from(s: Seq<Process>, start: int, k: int) -> int
    decreases s.len() + 1 - k,
{
    if k > s.len() || k < 1 || s.len() == 0 {
        -1
    } else if s[(start + k) % (s.len() as int)].state == ProcessState::Ready {
        (start + k) % (s.len() as int)
    } else {
        spec_pick_from(s, start, k + 1)
    }
}

/// One scheduler step: advance the tick, charge the current process, then
/// promote the next `Ready` process after the current one, wrapping.  When
/// another process is promoted while the current one is still running, the
/// current one hands the processor over: it is demoted to `Ready`, keeping
/// its charged time, so at most one process ever runs at an instant.
pub open spec fn spec_schedule(v: ProcessTableView) -> (ProcessTableView, Option<u32>) {
    let tick = vstd::wrapping::u32_specs::wrapping_add(v.scheduler_tick, 1);
    let s1 = spec_charge(v.processes, v.current_pid);
    let start: int = if 1 <= v.current_pid <= s1.len() {
        v.current_pid - 1
    } else {
        0
    };
    let pick = spec_pick_from(s1, start, 1);
    if pick == -1 {
        (ProcessTableView { processes: s1, scheduler_tick: tick, ..v }, None)
    } else {
        let chosen = s1[pick];
        let handed_over = if 1 <= v.current_pid <= s1.len() && s1[v.current_pid - 1].state
            == ProcessState::Running {
            s1.update(
                v.current_pid - 1,
                spec_with_state(s1[v.current_pid - 1], ProcessState::Ready),
            )
        } else {
            s1
        };
        (
            ProcessTableView {
                processes: handed_over.update(pick, spec_with_state(chosen, ProcessState::Running)),
                current_pid: chosen.pid,
                scheduler_tick: tick,
                ..v
            },
            Some(chosen.pid),
        )
    }
}

/// Whether a termination request is honoured: the pid must name a live
/// table entry and must not be init, which can never be terminated.
pub open spec fn spec_terminate_allowed(s: Seq<Process>, pid: u32) -> bool {
    pid != INIT_PID && 1 <= pid <= s.len()
}

/// The table after the process with pid `pid` terminates: its entry is
/// marked `Terminated` and every child of `pid` is re-parented to init.
pub open spec fn spec_terminate(s: Seq<Process>, pid: u32) -> Seq<Process> {
    Seq::new(
        s.len(),
        |i: int|
            {
                let p = s[i];
                let p1 = if p.pid == pid {
                    spec_with_state(p, ProcessState::Terminated)
                } else {
                    p
                };
                if p1.ppid == pid {
                    Process { ppid: INIT_PID, ..p1 }
                } else {
                    p1
                }
            },
    )
}

pub struct ProcessManager {
    processes: heapless::Vec<Process, MAX_PROCESSES>,
    current_pid: u32,
    next_pid: u32,
    scheduler_tick: u32,
}

impl View for ProcessManager {
    type V = ProcessTableView;

    closed spec fn view(&self) -> ProcessTableView {
        ProcessTableView {
            processes: proc_vec_model(self.processes),
            current_pid: self.current_pid,
            next_pid: self.next_pid,
            scheduler_tick: self.scheduler_tick,
        }
    }
}

impl ProcessManager {
    pub open spec fn wf(&self) -> bool {
        self@.wf()
    }

    pub fn new() -> (r: ProcessManager)
        ensures
            r.wf(),
            r@.processes == Seq::<Process>::empty(),
            r@.current_pid == 0,
            r@.next_pid == 1,
            r@.scheduler_tick == 0,
    {
        ProcessManager {
            processes: proc_vec_new(),
            current_pid: 0,
            next_pid: 1,
            scheduler_tick: 0,
        }
    }

    /// Creates a fresh `Ready` process, or returns `None` when the table is
    /// full.
    pub fn create_process(&mut self, entry_point: u64, parent_pid: u32) -> (r: Option<u32>)
        requires
            old(self).wf(),
        ensures
            final(self).wf(),
            old(self)@.processes.len() >= MAX_PROCESSES ==> r is None && final(self)@ == old(
                self,
            )@,
            old(self)@.processes.len() < MAX_PROCESSES ==> r == Some(old(self)@.next_pid)
                && final(self)@.processes == old(self)@.processes.push(
                spec_new_process(old(self)@.next_pid, parent_pid, entry_point),
            ) && final(self)@.next_pid == old(self)@.next_pid + 1,
            final(self)@.current_pid == old(self)@.current_pid,
            final(self)@.scheduler_tick == old(self)@.scheduler_tick,
            old(self)@.processes.len() >= MAX_PROCESSES ==> final(self)@.next_pid == old(
                self,
            )@.next_pid,
    {
        let n = proc_vec_len(&self.processes);
        if n >= MAX_PROCESSES {
            assert(final(self)@ =~= old(self)@);
            return None;
        }
        let pid = self.next_pid;
        self.next_pid = self.next_pid + 1;
        let process = Process {
            pid,
            ppid: parent_pid,
            state: ProcessState::Ready,
            stack_ptr: 0x400000u64 + (pid as u64) * 0x100000u64,
            entry_point,
            priority: 128,
            time_slice: DEFAULT_TIME_SLICE,
            used_time: 0,
        };
        let pushed = proc_vec_push(&mut self.processes, process);
        assert(pushed is Ok);
        Some(pid)
    }

    /// Resets pid allocation and creates the root process (pid 1); only
    /// meaningful on an empty table at boot.
    pub fn create_init_process(&mut self, entry_point: u64) -> (r: Option<u32>)
        requires
            old(self).wf(),
            old(self)@.processes.len() == 0,
        ensures
            final(self).wf(),
            r == Some(INIT_PID),
            final(self)@.processes == Seq::<Process>::empty().push(
                spec_new_process(INIT_PID, 0, entry_point),
            ),
            final(self)@.next_pid == 2,
            final(self)@.current_pid == old(self)@.current_pid,
            final(self)@.scheduler_tick == old(self)@.scheduler_tick,
    {
        self.next_pid = 1;
        self.create_process(entry_point, 0)
    }

    pub fn current_pid(&self) -> (r: u32)
        ensures
            r == self@.current_pid,
    {
        self.current_pid
    }

    /// Overwrites the state of the process with pid `pid`; `false` if there
    /// is no such process.
    pub fn set_process_state(&mut self, pid: u32, state: ProcessState) -> (r: bool)
        requires
            old(self).wf(),
        ensures
            final(self).wf(),
            r <==> 1 <= pid <= old(self)@.processes.len(),
            r ==> final(self)@.processes == old(self)@.processes.update(
                pid - 1,
                spec_with_state(old(self)@.processes[pid - 1], state),
            ),
            !r ==> final(self)@.processes == old(self)@.processes,
            final(self)@.current_pid == old(self)@.current_pid,
            final(self)@.next_pid == old(self)@.next_pid,
            final(self)@.scheduler_tick == old(self)@.scheduler_tick,
    {
        let n = proc_vec_len(&self.processes);
        let mut i: usize = 0;
        while i < n
            invariant
                self == old(self),
                self.wf(),
                n == self@.processes.len(),
                i <= n,
                forall|j: int| 0 <= j < i ==> (#[trigger] self@.processes[j]).pid != pid,
            decreases n - i,
        {
            let p = *proc_vec_get(&self.processes, i);
            if p.pid == pid {
                proc_vec_set(&mut self.processes, i, Process { state, ..p });
                return true;
            }
            i = i + 1;
        }
        false
    }

    /// One round-robin scheduling step; returns the pid now running, or
    /// `None` when no process is ready.  Promoting a process preempts a
    /// still-running current one, so at most one process runs at a time.
    pub fn schedule(&mut self) -> (r: Option<u32>)
        requires
            old(self).wf(),
        ensures
            final(self).wf(),
            final(self)@ == spec_schedule(old(self)@).0,
            r == spec_schedule(old(self)@).1,
    {
        let ghost v0 = old(self)@;
        self.scheduler_tick = self.scheduler_tick.wrapping_add(1);
        let n = proc_vec_len(&self.processes);

        // Find the current process's table index, defaulting to 0.
        let mut current_index: usize = 0;
        let mut found: bool = false;
        let mut i: usize = 0;
        while i < n && !found
            invariant
                v0 == old(self)@,
                self@.processes == v0.processes,
                self@.current_pid == v0.current_pid,
                self@.next_pid == v0.next_pid,
                self@.scheduler_tick == vstd::wrapping::u32_specs::wrapping_add(
                    v0.scheduler_tick,
                    1,
                ),
                self@.wf(),
                n == self@.processes.len(),
                i <= n,
                !found ==> current_index == 0,
                !found ==> forall|j: int|
                    0 <= j < i ==> (#[trigger] self@.processes[j]).pid != v0.current_pid,
                found ==> i < n && self@.processes[i as int].pid == v0.current_pid
                    && current_index == i,
            decreases n - i + (if found { 0int } else { 1int }),
        {
            let p = proc_vec_get(&self.processes, i);
            if p.pid == self.current_pid {
                found = true;
                current_index = i;
            } else {
                i = i + 1;
            }
        }
        proof {
            if found {
                assert(v0.current_pid == current_index + 1);
            } else {
                assert(forall|j: int|
                    0 <= j < n ==> (#[trigger] self@.processes[j]).pid != v0.current_pid);
                if 1 <= v0.current_pid <= n {
                    assert(self@.processes[v0.current_pid - 1].pid == v0.current_pid);
                }
            }
        }

        // Charge one tick to the current process.
        if found {
            let p = *proc_vec_get(&self.processes, current_index);
            let mut p1 = p;
            p1.used_time = p1.used_time + 1;
            if p1.used_time >= p1.time_slice || !matches!(p1.state, ProcessState::Running) {
                p1.state = if matches!(p.state, ProcessState::Running) {
                    ProcessState::Ready
                } else {
                    p.state
                };
                p1.used_time = 0;
            }
            assert(p1 == spec_charge_process(p));
            proc_vec_set(&mut self.processes, current_index, p1);
        }
        let ghost s1 = spec_charge(v0.processes, v0.current_pid);
        assert(self@.processes =~= s1);
        let ghost start: int = if 1 <= v0.current_pid <= s1.len() {
            v0.current_pid - 1
        } else {
            0
        };
        assert(start == current_index as int);

        if n == 0 {
            assert(self@ =~= spec_schedule(v0).0);
            return None;
        }

        // Scan forward, wrapping, for the next Ready process.
        let mut off: usize = 1;
        while off <= n
            invariant
                v0 == old(self)@,
                s1 == spec_charge(v0.processes, v0.current_pid),
                start == if 1 <= v0.current_pid <= s1.len() {
                    v0.current_pid - 1
                } else {
                    0int
                },
                self@.processes == s1,
                self@.current_pid == v0.current_pid,
                self@.scheduler_tick == vstd::wrapping::u32_specs::wrapping_add(
                    v0.scheduler_tick,
                    1,
                ),
                self@.next_pid == v0.next_pid,
                self@.wf(),
                n == s1.len(),
                0 < n,
                current_index < n,
                start == current_index as int,
                found <==> 1 <= v0.current_pid <= s1.len(),
                1 <= off <= n + 1,
                spec_pick_from(s1, start, off as int) == spec_pick_from(s1, start, 1),
            decreases n + 1 - off,
        {
            let idx = (current_index + off) % n;
            let p = *proc_vec_get(&self.processes, idx);
            if matches!(p.state, ProcessState::Ready) {
                assert(spec_pick_from(s1, start, off as int) == idx);
                // The processor is handed over: a current process still
                // running at this point is preempted, keeping its charged
                // time.
                if found {
                    let current = *proc_vec_get(&self.processes, current_index);
                    if matches!(current.state, ProcessState::Running) {
                        proc_vec_set(
                            &mut self.processes,
                            current_index,
                            Process { state: ProcessState::Ready, ..current },
                        );
                    }
                }
                proc_vec_set(&mut self.processes, idx, Process { state: ProcessState::Running, ..p });
                self.current_pid = p.pid;
                assert(self@ =~= spec_schedule(v0).0);
                return Some(p.pid);
            }
            proof {
                assert(spec_pick_from(s1, start, off as int) == spec_pick_from(
                    s1,
                    start,
                    off + 1int,
                ));
            }
            off = off + 1;
        }
        assert(spec_pick_from(s1, start, 1) == -1);
        assert(self@ =~= spec_schedule(v0).0);
        None
    }

    /// A view of the process with pid `pid`, if it exists.
    pub fn get_process(&self, pid: u32) -> (r: Option<&Process>)
        requires
            self.wf(),
        ensures
            r is Some <==> 1 <= pid <= self@.processes.len(),
            r is Some ==> *r->Some_0 == self@.processes[pid - 1],
    {
        let n = proc_vec_len(&self.processes);
        let mut i: usize = 0;
        while i < n
            invariant
                self.wf(),
                n == self@.processes.len(),
                i <= n,
                forall|j: int| 0 <= j < i ==> (#[trigger] self@.processes[j]).pid != pid,
            decreases n - i,
        {
            let p = proc_vec_get(&self.processes, i);
            if p.pid == pid {
                return Some(p);
            }
            i = i + 1;
        }
        proof {
            if 1 <= pid <= n {
                assert(self@.processes[pid - 1].pid == pid);
            }
        }
        None
    }

    /// Every table entry, live or terminated, in creation order.
    pub fn list_processes(&self) -> (r: &[Process])
        ensures
            r@ == self@.processes,
    {
        proc_vec_as_slice(&self.processes)
    }

    /// Soft-deletes the process with pid `pid` and re-parents its children
    /// to init; `false` if there is no such process.  A request against
    /// init itself (pid 1) is rejected without side effects: exactly one
    /// process never terminates.
    pub fn terminate_process(&mut self, pid: u32) -> (r: bool)
        requires
            old(self).wf(),
        ensures
            final(self).wf(),
            r <==> spec_terminate_allowed(old(self)@.processes, pid),
            r ==> final(self)@.processes == spec_terminate(old(self)@.processes, pid),
            !r ==> final(self)@.processes == old(self)@.processes,
            final(self)@.current_pid == old(self)@.current_pid,
            final(self)@.next_pid == old(self)@.next_pid,
            final(self)@.scheduler_tick == old(self)@.scheduler_tick,
    {
        if pid == INIT_PID {
            return false;
        }
        let ghost s0 = old(self)@.processes;
        let n = proc_vec_len(&self.processes);

        // Find the process and mark it terminated.
        let mut i: usize = 0;
        let mut found: bool = false;
        while i < n && !found
            invariant
                s0 == old(self)@.processes,
                self@ == old(self)@,
                self@.wf(),
                n == s0.len(),
                i <= n,
                !found ==> forall|j: int| 0 <= j < i ==> (#[trigger] s0[j]).pid != pid,
                found ==> i < n && s0[i as int].pid == pid,
            decreases n - i + (if found { 0int } else { 1int }),
        {
            let p = proc_vec_get(&self.processes, i);
            if p.pid == pid {
                found = true;
            } else {
                i = i + 1;
            }
        }
        if !found {
            proof {
                if 1 <= pid <= n {
                    assert(s0[pid - 1].pid == pid);
                }
            }
            return false;
        }
        let p = *proc_vec_get(&self.processes, i);
        proc_vec_set(&mut self.processes, i, Process { state: ProcessState::Terminated, ..p });
        let ghost mid = s0.update(i as int, spec_with_state(s0[i as int], ProcessState::Terminated));
        assert(self@.processes == mid);

        // Re-parent every child of `pid` to init.
        let mut k: usize = 0;
        while k < n
            invariant
                s0 == old(self)@.processes,
                old(self)@.wf(),
                self@.wf(),
                self@.current_pid == old(self)@.current_pid,
                self@.next_pid == old(self)@.next_pid,
                self@.scheduler_tick == old(self)@.scheduler_tick,
                n == self@.processes.len(),
                n == s0.len(),
                mid == s0.update(
                    i as int,
                    spec_with_state(s0[i as int], ProcessState::Terminated),
                ),
                i < n,
                s0[i as int].pid == pid,
                forall|j: int| 0 <= j < n && j != i ==> (#[trigger] s0[j]).pid != pid,
                k <= n,
                forall|j: int|
                    0 <= j < k ==> self@.processes[j] == #[trigger] spec_terminate(s0, pid)[j],
                forall|j: int| k <= j < n ==> self@.processes[j] == #[trigger] mid[j],
            decreases n - k,
        {
            let q = *proc_vec_get(&self.processes, k);
            if q.ppid == pid {
                proc_vec_set(&mut self.processes, k, Process { ppid: INIT_PID, ..q });
            }
            proof {
                let j = k as int;
                assert(mid[j] == if j == i as int {
                    spec_with_state(s0[j], ProcessState::Terminated)
                } else {
                    s0[j]
                });
                assert(self@.processes[j] == spec_terminate(s0, pid)[j]);
            }
            k = k + 1;
        }
        assert(self@.processes =~= spec_terminate(s0, pid));
        true
    }
}

} // verus!
