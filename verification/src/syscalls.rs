//! The syscall dispatcher.
//!
//! A syscall number and six integer arguments come in; one signed result
//! goes out, negative values being negated errno-style codes.  The
//! dispatcher decodes the number into one operation on the process table,
//! the signal subsystem or the file-descriptor table, and any number
//! outside the mapped table answers with the not-implemented code and
//! leaves every piece of kernel state unchanged.

use vstd::prelude::*;
use vstd::string::StringExecFns;
use vstd::string::StringSliceAdditionalSpecFns;

use crate::filesystem::{first_named, spec_capped, FileView, VirtualFileSystem, MAX_FILENAME};
use crate::process::{
    spec_new_process, spec_terminate, spec_terminate_allowed, ProcessManager, ProcessTableView,
    MAX_PROCESSES,
};
use crate::signals::{spec_send, spec_signal, SignalError, SignalHandler, SignalHandlerView};

verus! {

pub const MAX_OPEN_FILES: usize = 32;

/// The not-implemented code an unmapped syscall number answers with.
pub const ENOSYS_CODE: i64 = -38;

/// The architecture's syscall numbering, kept for the ABI's sake.
#[derive(Clone, Copy, Debug, PartialEq, Eq, Structural)]
pub enum SysCallNumber {
    Exit,
    Fork,
    Execve,
    Open,
    Close,
    Read,
    Write,
    Getpid,
    Getppid,
    Kill,
    Wait4,
    Pipe,
    Dup,
    Dup2,
    Chdir,
    Getcwd,
    Mkdir,
    Rmdir,
    Unlink,
    Chmod,
    Chown,
    Utime,
    Access,
    Stat,
    Lstat,
    Fstat,
}

/// The wire number of each syscall.
pub open spec fn spec_syscall_number(n: SysCallNumber) -> u64 {
    match n {
        SysCallNumber::Exit => 93,
        SysCallNumber::Fork => 57,
        SysCallNumber::Execve => 221,
        SysCallNumber::Open => 56,
        SysCallNumber::Close => 3,
        SysCallNumber::Read => 63,
        SysCallNumber::Write => 64,
        SysCallNumber::Getpid => 172,
        SysCallNumber::Getppid => 173,
        SysCallNumber::Kill => 129,
        SysCallNumber::Wait4 => 260,
        SysCallNumber::Pipe => 59,
        SysCallNumber::Dup => 23,
        SysCallNumber::Dup2 => 24,
        SysCallNumber::Chdir => 49,
        SysCallNumber::Getcwd => 79,
        SysCallNumber::Mkdir => 83,
        SysCallNumber::Rmdir => 84,
        SysCallNumber::Unlink => 87,
        SysCallNumber::Chmod => 90,
        SysCallNumber::Chown => 92,
        SysCallNumber::Utime => 132,
        SysCallNumber::Access => 21,
        SysCallNumber::Stat => 106,
        SysCallNumber::Lstat => 107,
        SysCallNumber::Fstat => 108,
    }
}

impl SysCallNumber {
    /// The wire number of this syscall.
    pub fn number(&self) -> (r: u64)
        ensures
            r == spec_syscall_number(*self),
    {
        match self {
            SysCallNumber::Exit => 93,
            SysCallNumber::Fork => 57,
            SysCallNumber::Execve => 221,
            SysCallNumber::Open => 56,
            SysCallNumber::Close => 3,
            SysCallNumber::Read => 63,
            SysCallNumber::Write => 64,
            SysCallNumber::Getpid => 172,
            SysCallNumber::Getppid => 173,
            SysCallNumber::Kill => 129,
            SysCallNumber::Wait4 => 260,
            SysCallNumber::Pipe => 59,
            SysCallNumber::Dup => 23,
            SysCallNumber::Dup2 => 24,
            SysCallNumber::Chdir => 49,
            SysCallNumber::Getcwd => 79,
            SysCallNumber::Mkdir => 83,
            SysCallNumber::Rmdir => 84,
            SysCallNumber::Unlink => 87,
            SysCallNumber::Chmod => 90,
            SysCallNumber::Chown => 92,
            SysCallNumber::Utime => 132,
            SysCallNumber::Access => 21,
            SysCallNumber::Stat => 106,
            SysCallNumber::Lstat => 107,
            SysCallNumber::Fstat => 108,
        }
    }
}

/// The mathematical state of one file descriptor.
#[verifier::ext_equal]
pub struct FdView {
    pub fd: i32,
    pub path: Seq<char>,
    pub flags: u32,
    pub offset: usize,
    pub is_open: bool,
}

/// The descriptor a fresh `FileDescriptor::new` call builds.
pub open spec fn spec_new_fd(fd: i32, path: Seq<char>, flags: u32) -> FdView {
    FdView { fd, path: spec_capped(path, MAX_FILENAME as int), flags, offset: 0, is_open: true }
}

#[derive(Clone, Debug)]
pub struct FileDescriptor {
    pub fd: i32,
    pub path: String,
    pub flags: u32,
    pub offset: usize,
    pub is_open: bool,
}

impl View for FileDescriptor {
    type V = FdView;

    open spec fn view(&self) -> FdView {
        FdView {
            fd: self.fd,
            path: self.path@,
            flags: self.flags,
            offset: self.offset,
            is_open: self.is_open,
        }
    }
}

impl FileDescriptor {
    pub fn new(fd: i32, path: &str, flags: u32) -> (r: FileDescriptor)
        ensures
            r@ == spec_new_fd(fd, path@, flags),
    {
        let path_len = path.len();
        proof {
            assert(path.spec_bytes() == vstd::utf8::encode_utf8(path@));
        }
        let path_str = if path_len <= MAX_FILENAME {
            String::from_str(path)
        } else {
            String::new()
        };
        FileDescriptor { fd, path: path_str, flags, offset: 0, is_open: true }
    }
}

/// The descriptors a `heapless::Vec<FileDescriptor, MAX_OPEN_FILES>` holds,
/// in order.
pub uninterp spec fn fd_vec_model(v: heapless::Vec<FileDescriptor, MAX_OPEN_FILES>) -> Seq<
    FileDescriptor,
>;

/// Relies on `heapless::Vec::new`: the new vector is empty.
#[verifier::external_body]
fn fd_vec_new() -> (r: heapless::Vec<FileDescriptor, MAX_OPEN_FILES>)
    ensures
        fd_vec_model(r) == Seq::<FileDescriptor>::empty(),
{
    heapless::Vec::new()
}

/// Relies on `heapless::Vec::push`: appends when below capacity, otherwise
/// hands the item back and leaves the vector unchanged.
#[verifier::external_body]
fn fd_vec_push(v: &mut heapless::Vec<FileDescriptor, MAX_OPEN_FILES>, item: FileDescriptor) -> (r:
    Result<(), FileDescriptor>)
    ensures
        r is Ok <==> fd_vec_model(*old(v)).len() < MAX_OPEN_FILES,
        r is Ok ==> fd_vec_model(*final(v)) == fd_vec_model(*old(v)).push(item),
        r is Err ==> fd_vec_model(*final(v)) == fd_vec_model(*old(v)),
{
    v.push(item)
}

/// Relies on the slice `len` reached through `heapless::Vec`'s `Deref`.
#[verifier::external_body]
fn fd_vec_len(v: &heapless::Vec<FileDescriptor, MAX_OPEN_FILES>) -> (r: usize)
    ensures
        r == fd_vec_model(*v).len(),
{
    v.len()
}

/// Relies on the slice indexing reached through `heapless::Vec`'s `Deref`.
#[verifier::external_body]
fn fd_vec_get(v: &heapless::Vec<FileDescriptor, MAX_OPEN_FILES>, i: usize) -> (r: &FileDescriptor)
    requires
        i < fd_vec_model(*v).len(),
    ensures
        *r == fd_vec_model(*v)[i as int],
{
    &v[i]
}

/// Relies on the slice indexing reached through `heapless::Vec`'s `DerefMut`.
#[verifier::external_body]
fn fd_vec_set(v: &mut heapless::Vec<FileDescriptor, MAX_OPEN_FILES>, i: usize, item: FileDescriptor)
    requires
        i < fd_vec_model(*old(v)).len(),
    ensures
        fd_vec_model(*final(v)) == fd_vec_model(*old(v)).update(i as int, item),
{
    v[i] = item;
}

/// The mathematical state of the descriptor table.
#[verifier::ext_equal]
pub struct FdTableView {
    pub fds: Seq<FdView>,
    pub next_fd: i32,
}

impl FdTableView {
    /// Well-formedness: bounded, descriptor numbers are dense (the entry at
    /// index `i` is descriptor `i`), and `next_fd` is one past the table.
    pub open spec fn wf(self) -> bool {
        &&& self.fds.len() <= MAX_OPEN_FILES
        &&& self.next_fd == self.fds.len()
        &&& forall|i: int| 0 <= i < self.fds.len() ==> (#[trigger] self.fds[i]).fd == i
    }
}

/// The three descriptors every table starts with.
pub open spec fn spec_std_fds() -> Seq<FdView> {
    seq![
        spec_new_fd(0, "/dev/stdin"@, 0),
        spec_new_fd(1, "/dev/stdout"@, 1),
        spec_new_fd(2, "/dev/stderr"@, 1),
    ]
}

pub struct ProcessFdTable {
    fds: heapless::Vec<FileDescriptor, MAX_OPEN_FILES>,
    next_fd: i32,
}

impl View for ProcessFdTable {
    type V = FdTableView;

    closed spec fn view(&self) -> FdTableView {
        FdTableView {
            fds: fd_vec_model(self.fds).map(|i: int, f: FileDescriptor| f@),
            next_fd: self.next_fd,
        }
    }
}

impl ProcessFdTable {
    pub open spec fn wf(&self) -> bool {
        self@.wf()
    }

    /// A fresh table holding the standard descriptors 0, 1 and 2.
    pub fn new() -> (r: ProcessFdTable)
        ensures
            r.wf(),
            r@.fds == spec_std_fds(),
            r@.next_fd == 3,
    {
        proof {
            reveal_strlit("/dev/stdin");
            reveal_strlit("/dev/stdout");
            reveal_strlit("/dev/stderr");
        }
        let mut fds = fd_vec_new();
        let in_ok = fd_vec_push(&mut fds, FileDescriptor::new(0, "/dev/stdin", 0));
        assert(in_ok is Ok);
        let out_ok = fd_vec_push(&mut fds, FileDescriptor::new(1, "/dev/stdout", 1));
        assert(out_ok is Ok);
        let err_ok = fd_vec_push(&mut fds, FileDescriptor::new(2, "/dev/stderr", 1));
        assert(err_ok is Ok);
        let table = ProcessFdTable { fds, next_fd: 3 };
        proof {
            assert(table@.fds =~= spec_std_fds());
        }
        table
    }

    /// Opens a descriptor for a path; `Err(-24)` (too many open files) when
    /// the table is full.
    pub fn open_file(&mut self, path: &str, flags: u32) -> (r: Result<i32, i32>)
        requires
            old(self).wf(),
        ensures
            final(self).wf(),
            old(self)@.fds.len() >= MAX_OPEN_FILES ==> r == Err::<i32, i32>(-24i32) && final(self)@
                == old(self)@,
            old(self)@.fds.len() < MAX_OPEN_FILES ==> r == Ok::<i32, i32>(old(self)@.next_fd)
                && final(self)@.fds == old(self)@.fds.push(
                spec_new_fd(old(self)@.next_fd, path@, flags),
            ) && final(self)@.next_fd == old(self)@.next_fd + 1,
    {
        if fd_vec_len(&self.fds) >= MAX_OPEN_FILES {
            proof {
                assert(final(self)@ =~= old(self)@);
            }
            return Err(-24);
        }
        let fd = self.next_fd;
        self.next_fd = self.next_fd + 1;
        let file_desc = FileDescriptor::new(fd, path, flags);
        let pushed = fd_vec_push(&mut self.fds, file_desc);
        assert(pushed is Ok);
        proof {
            assert(self@.fds =~= old(self)@.fds.push(spec_new_fd(old(self)@.next_fd, path@, flags)));
        }
        Ok(fd)
    }

    /// Closes an open descriptor; `Err(-9)` (bad file descriptor) if it is
    /// not there or already closed.
    pub fn close_file(&mut self, fd: i32) -> (r: Result<i32, i32>)
        requires
            old(self).wf(),
        ensures
            final(self).wf(),
            r == Ok::<i32, i32>(0) <==> 0 <= fd < old(self)@.fds.len() && old(self)@.fds[fd
                as int].is_open,
            r is Ok ==> r == Ok::<i32, i32>(0) && final(self)@.fds == old(self)@.fds.update(
                fd as int,
                (FdView { is_open: false, ..old(self)@.fds[fd as int] }),
            ),
            r is Err ==> r == Err::<i32, i32>(-9i32) && final(self)@ == old(self)@,
            final(self)@.next_fd == old(self)@.next_fd,
    {
        let n = fd_vec_len(&self.fds);
        let mut i: usize = 0;
        while i < n
            invariant
                self@ == old(self)@,
                self@.wf(),
                n == self@.fds.len(),
                i <= n,
                forall|j: int|
                    0 <= j < i ==> !((#[trigger] self@.fds[j]).fd == fd && self@.fds[j].is_open),
            decreases n - i,
        {
            let file_desc = fd_vec_get(&self.fds, i);
            proof {
                assert(self@.fds[i as int] == file_desc@);
            }
            if file_desc.fd == fd && file_desc.is_open {
                let closed = FileDescriptor {
                    fd: file_desc.fd,
                    path: file_desc.path.clone(),
                    flags: file_desc.flags,
                    offset: file_desc.offset,
                    is_open: false,
                };
                proof {
                    assert(closed@ == (FdView { is_open: false, ..old(self)@.fds[i as int] }));
                }
                fd_vec_set(&mut self.fds, i, closed);
                proof {
                    assert(self@.fds =~= old(self)@.fds.update(
                        fd as int,
                        (FdView { is_open: false, ..old(self)@.fds[fd as int] }),
                    ));
                }
                return Ok(0);
            }
            i = i + 1;
        }
        Err(-9)
    }

    /// The open descriptor numbered `fd`, if any.
    pub fn get_fd(&self, fd: i32) -> (r: Option<&FileDescriptor>)
        requires
            self.wf(),
        ensures
            r is Some <==> 0 <= fd < self@.fds.len() && self@.fds[fd as int].is_open,
            r is Some ==> r->Some_0@ == self@.fds[fd as int],
    {
        let n = fd_vec_len(&self.fds);
        let mut i: usize = 0;
        while i < n
            invariant
                self.wf(),
                n == self@.fds.len(),
                i <= n,
                forall|j: int|
                    0 <= j < i ==> !((#[trigger] self@.fds[j]).fd == fd && self@.fds[j].is_open),
            decreases n - i,
        {
            let file_desc = fd_vec_get(&self.fds, i);
            proof {
                assert(self@.fds[i as int] == file_desc@);
            }
            if file_desc.fd == fd && file_desc.is_open {
                return Some(file_desc);
            }
            i = i + 1;
        }
        None
    }
}

/// The kernel's whole state, threaded explicitly: the process table, the
/// signal subsystem, the descriptor table and the file store.
pub struct Kernel {
    pub processes: ProcessManager,
    pub signals: SignalHandler,
    pub fd_table: ProcessFdTable,
    pub files: VirtualFileSystem,
}

/// The mathematical state of the whole kernel.
#[verifier::ext_equal]
pub struct KernelView {
    pub processes: ProcessTableView,
    pub signals: SignalHandlerView,
    pub fd_table: FdTableView,
    pub files: Seq<FileView>,
}

impl View for Kernel {
    type V = KernelView;

    open spec fn view(&self) -> KernelView {
        KernelView {
            processes: self.processes@,
            signals: self.signals@,
            fd_table: self.fd_table@,
            files: self.files@,
        }
    }
}

impl Kernel {
    pub open spec fn wf(&self) -> bool {
        &&& self.processes.wf()
        &&& self.signals.wf()
        &&& self.fd_table.wf()
        &&& self.files.wf()
    }

    /// A freshly booted kernel: empty process table, default signal
    /// dispositions, the standard descriptors, the seeded file store.
    pub fn new() -> (r: Kernel)
        ensures
            r.wf(),
            r@.processes.processes == Seq::<crate::process::Process>::empty(),
            r@.processes.current_pid == 0,
            r@.processes.next_pid == 1,
            r@.signals.mask == 0,
            r@.signals.pending == Seq::<crate::signals::PendingSignal>::empty(),
            r@.fd_table.fds == spec_std_fds(),
            r@.files == crate::filesystem::spec_default_files(),
    {
        Kernel {
            processes: ProcessManager::new(),
            signals: SignalHandler::new(),
            fd_table: ProcessFdTable::new(),
            files: VirtualFileSystem::new(),
        }
    }
}

/// What `exit` does: the calling process is soft-deleted (the caller then
/// yields to the idle loop rather than resuming); the status is reported
/// only over the console, and the call answers 0.  Init never terminates,
/// so an exit from pid 1 changes nothing.
pub open spec fn spec_sys_exit(pm: ProcessTableView) -> (ProcessTableView, i64) {
    if spec_terminate_allowed(pm.processes, pm.current_pid) {
        (
            ProcessTableView { processes: spec_terminate(pm.processes, pm.current_pid), ..pm },
            0,
        )
    } else {
        (pm, 0)
    }
}

/// What `fork` does: a fresh process cloned from the caller's entry point,
/// parented to the caller; its pid comes back, or the out-of-memory code
/// when the table is full.
pub open spec fn spec_sys_fork(pm: ProcessTableView) -> (ProcessTableView, i64) {
    if 1 <= pm.current_pid <= pm.processes.len() {
        if pm.processes.len() < MAX_PROCESSES {
            let parent = pm.processes[pm.current_pid - 1];
            (
                ProcessTableView {
                    processes: pm.processes.push(
                        spec_new_process(pm.next_pid, pm.current_pid, parent.entry_point),
                    ),
                    next_pid: (pm.next_pid + 1) as u32,
                    ..pm
                },
                pm.next_pid as i64,
            )
        } else {
            (pm, -12i64)
        }
    } else {
        (pm, -1i64)
    }
}

/// What `open` does (the pathname argument is not dereferenced in this
/// core; a fixed scratch path stands in for it).
pub open spec fn spec_sys_open(f: FdTableView, flags: u32) -> (FdTableView, i64) {
    if f.fds.len() >= MAX_OPEN_FILES {
        (f, -24i64)
    } else {
        (
            FdTableView {
                fds: f.fds.push(spec_new_fd(f.next_fd, "/tmp/testfile"@, flags)),
                next_fd: (f.next_fd + 1) as i32,
            },
            f.next_fd as i64,
        )
    }
}

/// What `read` answers: 0 from stdin, how many bytes the store could serve
/// from an open descriptor's file, no-such-file or bad-descriptor codes
/// otherwise.  (No bytes move: the core has no user memory to copy into.)
pub open spec fn spec_sys_read(f: FdTableView, files: Seq<FileView>, fd: i32, count: u64) -> i64 {
    if fd == 0 {
        0i64
    } else if 0 <= fd < f.fds.len() && f.fds[fd as int].is_open {
        let idx = first_named(files, f.fds[fd as int].path);
        if idx >= 0 {
            let len = (vstd::utf8::encode_utf8(files[idx].content).len() as usize) as int;
            let cnt = (count as usize) as int;
            (if cnt < len {
                cnt
            } else {
                len
            }) as i64
        } else {
            -2i64
        }
    } else {
        -9i64
    }
}

/// What `write` answers: the full count for the console descriptors or any
/// open descriptor, the bad-descriptor code otherwise.
pub open spec fn spec_sys_write(f: FdTableView, fd: i32, count: u64) -> i64 {
    if fd == 1 || fd == 2 {
        count as i64
    } else if 0 <= fd < f.fds.len() && f.fds[fd as int].is_open {
        count as i64
    } else {
        -9i64
    }
}

/// What `getppid` answers: the caller's parent, or init's pid when the
/// caller is unknown.
pub open spec fn spec_sys_getppid(pm: ProcessTableView) -> i64 {
    if 1 <= pm.current_pid <= pm.processes.len() {
        pm.processes[pm.current_pid - 1].ppid as i64
    } else {
        1
    }
}

/// What `kill` does: route the signal through the signal subsystem with
/// the caller as sender; 0 on success, and distinct codes for a bad signal
/// number, a missing process and a full pending queue.
pub open spec fn spec_sys_kill(
    sh: SignalHandlerView,
    pm: ProcessTableView,
    pid: i32,
    sig: i32,
) -> (SignalHandlerView, ProcessTableView, i64) {
    match spec_signal(sig) {
        Some(signal) => {
            let (sh2, pm2, res) = spec_send(sh, pm, pid as u32, signal, pm.current_pid);
            let code: i64 = match res {
                Ok(_) => 0i64,
                Err(SignalError::QueueFull) => -11i64,
                Err(_) => -3i64,
            };
            (sh2, pm2, code)
        },
        None => (sh, pm, -22i64),
    }
}

/// Whether a syscall number is in the dispatcher's table.
pub open spec fn spec_syscall_mapped(syscall_num: u64) -> bool {
    ||| syscall_num == 93
    ||| syscall_num == 57
    ||| syscall_num == 56
    ||| syscall_num == 63
    ||| syscall_num == 64
    ||| syscall_num == 172
    ||| syscall_num == 173
    ||| syscall_num == 129
    ||| syscall_num == 49
    ||| syscall_num == 79
    ||| syscall_num == 83
    ||| syscall_num == 87
    ||| syscall_num == 21
    ||| syscall_num == 106
}

/// The dispatcher's whole behaviour, case by case.
pub open spec fn spec_handle_syscall(
    k: KernelView,
    syscall_num: u64,
    arg0: u64,
    arg1: u64,
    arg2: u64,
) -> (KernelView, i64) {
    if syscall_num == 93 {
        let (pm2, r) = spec_sys_exit(k.processes);
        (KernelView { processes: pm2, ..k }, r)
    } else if syscall_num == 57 {
        let (pm2, r) = spec_sys_fork(k.processes);
        (KernelView { processes: pm2, ..k }, r)
    } else if syscall_num == 56 {
        let (f2, r) = spec_sys_open(k.fd_table, arg1 as u32);
        (KernelView { fd_table: f2, ..k }, r)
    } else if syscall_num == 63 {
        (k, spec_sys_read(k.fd_table, k.files, arg0 as i32, arg2))
    } else if syscall_num == 64 {
        (k, spec_sys_write(k.fd_table, arg0 as i32, arg2))
    } else if syscall_num == 172 {
        (k, k.processes.current_pid as i64)
    } else if syscall_num == 173 {
        (k, spec_sys_getppid(k.processes))
    } else if syscall_num == 129 {
        let (sh2, pm2, r) = spec_sys_kill(k.signals, k.processes, arg0 as i32, arg1 as i32);
        (KernelView { signals: sh2, processes: pm2, ..k }, r)
    } else if syscall_num == 49 {
        (k, 0i64)
    } else if syscall_num == 79 {
        (k, arg1 as i64)
    } else if syscall_num == 83 {
        (k, 0i64)
    } else if syscall_num == 87 {
        (k, 0i64)
    } else if syscall_num == 21 {
        (k, 0i64)
    } else if syscall_num == 106 {
        (k, 0i64)
    } else {
        (k, ENOSYS_CODE)
    }
}

/// Decodes one syscall and performs it.  An unmapped number answers with
/// the not-implemented code and leaves the kernel untouched.
pub fn handle_syscall(
    kernel: &mut Kernel,
    syscall_num: u64,
    arg0: u64,
    arg1: u64,
    arg2: u64,
    _arg3: u64,
    _arg4: u64,
    _arg5: u64,
) -> (r: i64)
    requires
        old(kernel).wf(),
    ensures
        final(kernel).wf(),
        final(kernel)@ == spec_handle_syscall(old(kernel)@, syscall_num, arg0, arg1, arg2).0,
        r == spec_handle_syscall(old(kernel)@, syscall_num, arg0, arg1, arg2).1,
        !spec_syscall_mapped(syscall_num) ==> final(kernel)@ == old(kernel)@ && r == ENOSYS_CODE,
{
    let res: i64 = match syscall_num {
        93 => sys_exit(&mut kernel.processes, #[verifier::truncate] (arg0 as i32)),
        57 => sys_fork(&mut kernel.processes),
        56 => sys_open(&mut kernel.fd_table, arg0, arg1, arg2),
        63 => sys_read(
            &kernel.fd_table,
            &kernel.files,
            #[verifier::truncate] (arg0 as i32),
            arg1,
            arg2,
        ),
        64 => sys_write(&kernel.fd_table, #[verifier::truncate] (arg0 as i32), arg1, arg2),
        172 => sys_getpid(&kernel.processes),
        173 => sys_getppid(&kernel.processes),
        129 => sys_kill(
            &mut kernel.signals,
            &mut kernel.processes,
            #[verifier::truncate] (arg0 as i32),
            #[verifier::truncate] (arg1 as i32),
        ),
        49 => sys_chdir(arg0),
        79 => sys_getcwd(arg0, arg1),
        83 => sys_mkdir(arg0, arg1),
        87 => sys_unlink(arg0),
        21 => sys_access(arg0, arg1),
        106 => sys_stat(arg0, arg1),
        _ => ENOSYS_CODE,
    };
    proof {
        assert(final(kernel)@ =~= spec_handle_syscall(old(kernel)@, syscall_num, arg0, arg1, arg2).0);
    }
    res
}

/// Soft-deletes the calling process; the caller must then yield to the
/// idle loop instead of resuming the exited process.
fn sys_exit(pm: &mut ProcessManager, _status: i32) -> (r: i64)
    requires
        old(pm).wf(),
    ensures
        final(pm).wf(),
        final(pm)@ == spec_sys_exit(old(pm)@).0,
        r == spec_sys_exit(old(pm)@).1,
{
    let current_pid = pm.current_pid();
    let _ = pm.terminate_process(current_pid);
    proof {
        assert(final(pm)@ =~= spec_sys_exit(old(pm)@).0);
    }
    0
}

/// Clones the caller's entry point into a new process parented to it.
fn sys_fork(pm: &mut ProcessManager) -> (r: i64)
    requires
        old(pm).wf(),
    ensures
        final(pm).wf(),
        final(pm)@ == spec_sys_fork(old(pm)@).0,
        r == spec_sys_fork(old(pm)@).1,
{
    let current_pid = pm.current_pid();
    let parent_entry: Option<u64> = match pm.get_process(current_pid) {
        Some(parent) => Some(parent.entry_point),
        None => None,
    };
    match parent_entry {
        Some(entry_point) => {
            match pm.create_process(entry_point, current_pid) {
                Some(pid) => {
                    proof {
                        assert(final(pm)@ =~= spec_sys_fork(old(pm)@).0);
                    }
                    pid as i64
                },
                None => -12,
            }
        },
        None => -1,
    }
}

/// Opens a descriptor.  The pathname pointer is not dereferenced in this
/// core; a fixed scratch path stands in for it.
fn sys_open(fd_table: &mut ProcessFdTable, _pathname: u64, flags: u64, _mode: u64) -> (r: i64)
    requires
        old(fd_table).wf(),
    ensures
        final(fd_table).wf(),
        final(fd_table)@ == spec_sys_open(old(fd_table)@, flags as u32).0,
        r == spec_sys_open(old(fd_table)@, flags as u32).1,
{
    let path = "/tmp/testfile";
    match fd_table.open_file(path, #[verifier::truncate] (flags as u32)) {
        Ok(fd) => fd as i64,
        Err(errno) => errno as i64,
    }
}

/// Answers how many bytes an open descriptor's file could serve.
fn sys_read(
    fd_table: &ProcessFdTable,
    files: &VirtualFileSystem,
    fd: i32,
    _buf: u64,
    count: u64,
) -> (r: i64)
    requires
        fd_table.wf(),
    ensures
        r == spec_sys_read(fd_table@, files@, fd, count),
{
    if fd == 0 {
        // Reading from stdin yields end-of-file in this core.
        return 0;
    }
    match fd_table.get_fd(fd) {
        Some(file_desc) => {
            match files.read_file(file_desc.path.as_str()) {
                Some(content) => {
                    let content_str = content.as_str();
                    let len = content_str.len();
                    proof {
                        assert(content_str.spec_bytes() == vstd::utf8::encode_utf8(content_str@));
                    }
                    let cnt = #[verifier::truncate] (count as usize);
                    let bytes_to_read = if cnt < len {
                        cnt
                    } else {
                        len
                    };
                    #[verifier::truncate] (bytes_to_read as i64)
                },
                None => -2,
            }
        },
        None => -9,
    }
}

/// Accepts the whole count on the console descriptors or any open
/// descriptor; the payload pointer is not dereferenced in this core.
fn sys_write(fd_table: &ProcessFdTable, fd: i32, _buf: u64, count: u64) -> (r: i64)
    requires
        fd_table.wf(),
    ensures
        r == spec_sys_write(fd_table@, fd, count),
{
    if fd == 1 || fd == 2 {
        return #[verifier::truncate] (count as i64);
    }
    match fd_table.get_fd(fd) {
        Some(_) => #[verifier::truncate] (count as i64),
        None => -9,
    }
}

fn sys_getpid(pm: &ProcessManager) -> (r: i64)
    ensures
        r == pm@.current_pid as i64,
{
    pm.current_pid() as i64
}

fn sys_getppid(pm: &ProcessManager) -> (r: i64)
    requires
        pm.wf(),
    ensures
        r == spec_sys_getppid(pm@),
{
    let current_pid = pm.current_pid();
    match pm.get_process(current_pid) {
        Some(process) => process.ppid as i64,
        None => 1,
    }
}

/// Routes a signal through the signal subsystem with the caller as sender.
fn sys_kill(sh: &mut SignalHandler, pm: &mut ProcessManager, pid: i32, sig: i32) -> (r: i64)
    requires
        old(sh).wf(),
        old(pm).wf(),
    ensures
        final(sh).wf(),
        final(pm).wf(),
        final(sh)@ == spec_sys_kill(old(sh)@, old(pm)@, pid, sig).0,
        final(pm)@ == spec_sys_kill(old(sh)@, old(pm)@, pid, sig).1,
        r == spec_sys_kill(old(sh)@, old(pm)@, pid, sig).2,
{
    let current_pid = pm.current_pid();
    match crate::signals::Signal::from_i32(sig) {
        Some(signal) => {
            let target = #[verifier::truncate] (pid as u32);
            match sh.send_signal(pm, target, signal, current_pid) {
                Ok(_) => 0,
                Err(e) => {
                    if matches!(e, SignalError::QueueFull) {
                        -11
                    } else {
                        -3
                    }
                },
            }
        },
        None => -22,
    }
}

/// Directory changes are delegated to the shell's path handling.
fn sys_chdir(_path: u64) -> (r: i64)
    ensures
        r == 0,
{
    0
}

/// Answers the buffer size, as the core keeps no working directory.
fn sys_getcwd(_buf: u64, size: u64) -> (r: i64)
    ensures
        r == size as i64,
{
    #[verifier::truncate] (size as i64)
}

/// Accepted as a no-op on the flat store.
fn sys_mkdir(_pathname: u64, _mode: u64) -> (r: i64)
    ensures
        r == 0,
{
    0
}

/// Accepted as a no-op on the flat store.
fn sys_unlink(_pathname: u64) -> (r: i64)
    ensures
        r == 0,
{
    0
}

/// Accepted as a no-op on the flat store.
fn sys_access(_pathname: u64, _mode: u64) -> (r: i64)
    ensures
        r == 0,
{
    0
}

/// Accepted as a no-op on the flat store.
fn sys_stat(_pathname: u64, _statbuf: u64) -> (r: i64)
    ensures
        r == 0,
{
    0
}

} // verus!
