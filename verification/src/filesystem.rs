//! The in-memory file store the syscall layer consumes.
//!
//! A flat, bounded table of named entries, seeded with the usual
//! pseudo-file tree.  The store is a collaborator of the process/signal
//! core: the dispatcher only ever asks it whether a path exists, what a
//! file holds, and to create or overwrite a plain file.

use vstd::prelude::*;
use vstd::string::StringExecFns;

use crate::timer::Timer;
use vstd::string::StringSliceAdditionalSpecFns;

verus! {

pub const MAX_FILES: usize = 32;

pub const MAX_FILENAME: usize = 64;

pub const MAX_CONTENT: usize = 1024;

#[derive(Clone, Copy, Debug, PartialEq, Eq, Structural)]
pub enum FileType {
    RegularFile,
    Directory,
    Device,
    Proc,
}

/// Unix-style permission bits a fresh entry of each type receives.
pub open spec fn spec_permissions(file_type: FileType) -> u32 {
    match file_type {
        FileType::Directory => 0o755,
        FileType::Device => 0o666,
        FileType::Proc => 0o444,
        FileType::RegularFile => 0o644,
    }
}

/// A name or content string, capped at the store's limit (counted in
/// encoded bytes): an overlong string is dropped and the entry keeps an
/// empty one.
pub open spec fn spec_capped(s: Seq<char>, cap: int) -> Seq<char> {
    if vstd::utf8::encode_utf8(s).len() as usize <= cap {
        s
    } else {
        Seq::empty()
    }
}

/// The mathematical state of one file entry.
#[verifier::ext_equal]
pub struct FileView {
    pub name: Seq<char>,
    pub file_type: FileType,
    pub content: Seq<char>,
    pub size: usize,
    pub permissions: u32,
}

/// The entry a fresh `VirtualFile::new` call builds: capped name and
/// content, the size of the offered content, and type-derived permissions.
pub open spec fn spec_new_file(name: Seq<char>, file_type: FileType, content: Seq<char>) -> FileView {
    FileView {
        name: spec_capped(name, MAX_FILENAME as int),
        file_type,
        content: spec_capped(content, MAX_CONTENT as int),
        size: vstd::utf8::encode_utf8(content).len() as usize,
        permissions: spec_permissions(file_type),
    }
}

#[derive(Clone, Debug)]
pub struct VirtualFile {
    pub name: String,
    pub file_type: FileType,
    pub content: String,
    pub size: usize,
    pub permissions: u32,
}

impl View for VirtualFile {
    type V = FileView;

    open spec fn view(&self) -> FileView {
        FileView {
            name: self.name@,
            file_type: self.file_type,
            content: self.content@,
            size: self.size,
            permissions: self.permissions,
        }
    }
}

impl VirtualFile {
    pub fn new(name: &str, file_type: FileType, content: &str) -> (r: VirtualFile)
        ensures
            r@ == spec_new_file(name@, file_type, content@),
    {
        let name_len = name.len();
        proof {
            assert(name.spec_bytes() == vstd::utf8::encode_utf8(name@));
        }
        let file_name = if name_len <= MAX_FILENAME {
            String::from_str(name)
        } else {
            String::new()
        };
        let content_len = content.len();
        proof {
            assert(content.spec_bytes() == vstd::utf8::encode_utf8(content@));
        }
        let file_content = if content_len <= MAX_CONTENT {
            String::from_str(content)
        } else {
            String::new()
        };
        let permissions: u32 = match file_type {
            FileType::Directory => 0o755,
            FileType::Device => 0o666,
            FileType::Proc => 0o444,
            FileType::RegularFile => 0o644,
        };
        VirtualFile { name: file_name, file_type, content: file_content, size: content_len, permissions }
    }
}

/// The entries a `heapless::Vec<VirtualFile, MAX_FILES>` holds, in order.
pub uninterp spec fn file_vec_model(v: heapless::Vec<VirtualFile, MAX_FILES>) -> Seq<VirtualFile>;

/// Relies on `heapless::Vec::new`: the new vector is empty.
#[verifier::external_body]
fn file_vec_new() -> (r: heapless::Vec<VirtualFile, MAX_FILES>)
    ensures
        file_vec_model(r) == Seq::<VirtualFile>::empty(),
{
    heapless::Vec::new()
}

/// Relies on `heapless::Vec::push`: appends when below capacity, otherwise
/// hands the item back and leaves the vector unchanged.
#[verifier::external_body]
fn file_vec_push(v: &mut heapless::Vec<VirtualFile, MAX_FILES>, item: VirtualFile) -> (r: Result<
    (),
    VirtualFile,
>)
    ensures
        r is Ok <==> file_vec_model(*old(v)).len() < MAX_FILES,
        r is Ok ==> file_vec_model(*final(v)) == file_vec_model(*old(v)).push(item),
        r is Err ==> file_vec_model(*final(v)) == file_vec_model(*old(v)),
{
    v.push(item)
}

/// Relies on the slice `len` reached through `heapless::Vec`'s `Deref`.
#[verifier::external_body]
fn file_vec_len(v: &heapless::Vec<VirtualFile, MAX_FILES>) -> (r: usize)
    ensures
        r == file_vec_model(*v).len(),
{
    v.len()
}

/// Relies on the slice indexing reached through `heapless::Vec`'s `Deref`.
#[verifier::external_body]
fn file_vec_get(v: &heapless::Vec<VirtualFile, MAX_FILES>, i: usize) -> (r: &VirtualFile)
    requires
        i < file_vec_model(*v).len(),
    ensures
        *r == file_vec_model(*v)[i as int],
{
    &v[i]
}

/// Relies on the slice indexing reached through `heapless::Vec`'s `DerefMut`.
#[verifier::external_body]
fn file_vec_set(v: &mut heapless::Vec<VirtualFile, MAX_FILES>, i: usize, item: VirtualFile)
    requires
        i < file_vec_model(*old(v)).len(),
    ensures
        file_vec_model(*final(v)) == file_vec_model(*old(v)).update(i as int, item),
{
    v[i] = item;
}

/// The store a freshly initialized system presents.
pub open spec fn spec_default_files() -> Seq<FileView> {
    seq![
        spec_new_file("/"@, FileType::Directory, ""@),
        spec_new_file("/proc"@, FileType::Directory, ""@),
        spec_new_file(
            "/proc/version"@,
            FileType::Proc,
            "Minimal Pi5 OS version 0.1.0 (root@pi5) (aarch64) #1"@,
        ),
        spec_new_file(
            "/proc/cpuinfo"@,
            FileType::Proc,
            "processor\t: 0\nBogoMIPS\t: 108.00\nFeatures\t: fp asimd evtstrm crc32 cpuid\nCPU implementer\t: 0x41\nCPU architecture: 8"@,
        ),
        spec_new_file(
            "/proc/meminfo"@,
            FileType::Proc,
            "MemTotal:     8388608 kB\nMemFree:      7340032 kB\nMemAvailable: 7340032 kB"@,
        ),
        spec_new_file("/proc/uptime"@, FileType::Proc, ""@),
        spec_new_file("/proc/loadavg"@, FileType::Proc, "0.00 0.00 0.00 1/1 1"@),
        spec_new_file("/dev"@, FileType::Directory, ""@),
        spec_new_file("/dev/null"@, FileType::Device, ""@),
        spec_new_file("/dev/zero"@, FileType::Device, ""@),
        spec_new_file("/dev/uart0"@, FileType::Device, ""@),
        spec_new_file("/dev/mem"@, FileType::Device, ""@),
        spec_new_file("/sys"@, FileType::Directory, ""@),
        spec_new_file("/sys/class"@, FileType::Directory, ""@),
        spec_new_file("/sys/class/gpio"@, FileType::Directory, ""@),
        spec_new_file("/tmp"@, FileType::Directory, ""@),
        spec_new_file("/etc"@, FileType::Directory, ""@),
        spec_new_file("/etc/hostname"@, FileType::RegularFile, "pi5-minimal"@),
        spec_new_file(
            "/etc/passwd"@,
            FileType::RegularFile,
            "root:x:0:0:root:/root:/bin/sh"@,
        ),
    ]
}

/// One decimal digit character.
pub open spec fn spec_decimal_digit(d: u32) -> char {
    if d == 0 {
        '0'
    } else if d == 1 {
        '1'
    } else if d == 2 {
        '2'
    } else if d == 3 {
        '3'
    } else if d == 4 {
        '4'
    } else if d == 5 {
        '5'
    } else if d == 6 {
        '6'
    } else if d == 7 {
        '7'
    } else if d == 8 {
        '8'
    } else {
        '9'
    }
}

/// The decimal digits of a number, most significant first.
pub open spec fn spec_decimal(n: u32) -> Seq<char>
    decreases n,
{
    if n < 10 {
        seq![spec_decimal_digit(n)]
    } else {
        spec_decimal(n / 10).push(spec_decimal_digit(n % 10))
    }
}

/// What the live uptime pseudo-file reads: the whole seconds with a zero
/// fraction, twice over (uptime and idle time).
pub open spec fn spec_uptime_content(seconds: u32) -> Seq<char> {
    spec_decimal(seconds) + ".00 "@ + spec_decimal(seconds) + ".00"@
}

/// Relies on `String::push`: appends one character.
#[verifier::external_body]
fn string_push(s: &mut String, c: char)
    ensures
        final(s)@ == old(s)@.push(c),
{
    s.push(c);
}

/// One decimal digit character.
fn decimal_digit(d: u32) -> (r: char)
    requires
        d < 10,
    ensures
        r == spec_decimal_digit(d),
{
    match d {
        0 => '0',
        1 => '1',
        2 => '2',
        3 => '3',
        4 => '4',
        5 => '5',
        6 => '6',
        7 => '7',
        8 => '8',
        _ => '9',
    }
}

/// The index of the first entry named `name`, or -1 if there is none.
pub open spec fn first_named(files: Seq<FileView>, name: Seq<char>) -> int
    decreases files.len(),
{
    if files.len() == 0 {
        -1
    } else if files[0].name == name {
        0
    } else {
        let r = first_named(files.subrange(1, files.len() as int), name);
        if r == -1 {
            -1
        } else {
            r + 1
        }
    }
}

/// An entry named `name` with no earlier namesake is the first one.
pub proof fn lemma_first_named_is(files: Seq<FileView>, name: Seq<char>, i: int)
    requires
        0 <= i < files.len(),
        files[i].name == name,
        forall|j: int| 0 <= j < i ==> (#[trigger] files[j]).name != name,
    ensures
        first_named(files, name) == i,
    decreases i,
{
    if i == 0 {
    } else {
        let rest = files.subrange(1, files.len() as int);
        assert(forall|j: int| 0 <= j < i - 1 ==> (#[trigger] rest[j]).name != name);
        assert(rest[i - 1].name == name);
        lemma_first_named_is(rest, name, i - 1);
    }
}

/// With no entry of that name, the search comes up empty.
pub proof fn lemma_first_named_none(files: Seq<FileView>, name: Seq<char>)
    requires
        forall|j: int| 0 <= j < files.len() ==> (#[trigger] files[j]).name != name,
    ensures
        first_named(files, name) == -1,
    decreases files.len(),
{
    if files.len() > 0 {
        let rest = files.subrange(1, files.len() as int);
        lemma_first_named_none(rest, name);
    }
}

/// The first entry found is in range, carries the name, and nothing before
/// it does.
pub proof fn lemma_first_named_found(files: Seq<FileView>, name: Seq<char>)
    requires
        first_named(files, name) >= 0,
    ensures
        first_named(files, name) < files.len(),
        files[first_named(files, name)].name == name,
        forall|j: int| 0 <= j < first_named(files, name) ==> (#[trigger] files[j]).name != name,
    decreases files.len(),
{
    if files.len() > 0 && files[0].name != name {
        let rest = files.subrange(1, files.len() as int);
        lemma_first_named_found(rest, name);
        let r = first_named(rest, name);
        assert(files[r + 1] == rest[r]);
        assert forall|j: int| 0 <= j < r + 1 implies (#[trigger] files[j]).name != name by {
            if j >= 1 {
                assert(files[j] == rest[j - 1]);
            }
        }
    }
}

pub struct VirtualFileSystem {
    files: heapless::Vec<VirtualFile, MAX_FILES>,
}

impl View for VirtualFileSystem {
    type V = Seq<FileView>;

    closed spec fn view(&self) -> Seq<FileView> {
        file_vec_model(self.files).map(|i: int, f: VirtualFile| f@)
    }
}

impl VirtualFileSystem {
    pub open spec fn wf(&self) -> bool {
        self@.len() <= MAX_FILES
    }

    /// The seeded store: the usual pseudo-file tree.
    pub fn new() -> (r: VirtualFileSystem)
        ensures
            r.wf(),
            r@ == spec_default_files(),
    {
        let mut vfs = VirtualFileSystem { files: file_vec_new() };
        vfs.init_default_files();
        proof {
            assert(vfs@ =~= spec_default_files());
        }
        vfs
    }

    fn init_default_files(&mut self)
        requires
            old(self)@.len() == 0,
        ensures
            final(self)@.len() == 19,
            forall|i: int| 0 <= i < 19 ==> final(self)@[i] == #[trigger] spec_default_files()[i],
    {
        self.add_file("/", FileType::Directory, "");
        self.add_file("/proc", FileType::Directory, "");
        self.add_file(
            "/proc/version",
            FileType::Proc,
            "Minimal Pi5 OS version 0.1.0 (root@pi5) (aarch64) #1",
        );
        self.add_file(
            "/proc/cpuinfo",
            FileType::Proc,
            "processor\t: 0\nBogoMIPS\t: 108.00\nFeatures\t: fp asimd evtstrm crc32 cpuid\nCPU implementer\t: 0x41\nCPU architecture: 8",
        );
        self.add_file(
            "/proc/meminfo",
            FileType::Proc,
            "MemTotal:     8388608 kB\nMemFree:      7340032 kB\nMemAvailable: 7340032 kB",
        );
        self.add_file("/proc/uptime", FileType::Proc, "");
        self.add_file("/proc/loadavg", FileType::Proc, "0.00 0.00 0.00 1/1 1");
        self.add_file("/dev", FileType::Directory, "");
        self.add_file("/dev/null", FileType::Device, "");
        self.add_file("/dev/zero", FileType::Device, "");
        self.add_file("/dev/uart0", FileType::Device, "");
        self.add_file("/dev/mem", FileType::Device, "");
        self.add_file("/sys", FileType::Directory, "");
        self.add_file("/sys/class", FileType::Directory, "");
        self.add_file("/sys/class/gpio", FileType::Directory, "");
        self.add_file("/tmp", FileType::Directory, "");
        self.add_file("/etc", FileType::Directory, "");
        self.add_file("/etc/hostname", FileType::RegularFile, "pi5-minimal");
        self.add_file("/etc/passwd", FileType::RegularFile, "root:x:0:0:root:/root:/bin/sh");
    }

    /// Appends an entry if there is room; a full store drops it silently.
    fn add_file(&mut self, name: &str, file_type: FileType, content: &str)
        ensures
            old(self)@.len() < MAX_FILES ==> final(self)@ == old(self)@.push(
                spec_new_file(name@, file_type, content@),
            ),
            old(self)@.len() >= MAX_FILES ==> final(self)@ == old(self)@,
    {
        if file_vec_len(&self.files) < MAX_FILES {
            let file = VirtualFile::new(name, file_type, content);
            let pushed = file_vec_push(&mut self.files, file);
            assert(pushed is Ok);
            proof {
                assert(self@ =~= old(self)@.push(spec_new_file(name@, file_type, content@)));
            }
        } else {
            proof {
                assert(self@ =~= old(self)@);
            }
        }
    }

    /// The content of the first entry named `path`, if any.
    pub fn read_file(&self, path: &str) -> (r: Option<String>)
        ensures
            r is Some <==> first_named(self@, path@) >= 0,
            r is Some ==> r->Some_0@ == self@[first_named(self@, path@)].content,
    {
        let p = String::from_str(path);
        let n = file_vec_len(&self.files);
        let mut i: usize = 0;
        while i < n
            invariant
                p@ == path@,
                n == self@.len(),
                i <= n,
                forall|j: int| 0 <= j < i ==> (#[trigger] self@[j]).name != path@,
            decreases n - i,
        {
            let file = file_vec_get(&self.files, i);
            let same = file.name == p;
            assert(same == (self@[i as int].name == path@));
            if same {
                proof {
                    lemma_first_named_is(self@, path@, i as int);
                }
                return Some(file.content.clone());
            }
            i = i + 1;
        }
        proof {
            lemma_first_named_none(self@, path@);
        }
        None
    }

    /// Whether an entry named `path` exists.
    pub fn file_exists(&self, path: &str) -> (r: bool)
        ensures
            r <==> exists|i: int| 0 <= i < self@.len() && (#[trigger] self@[i]).name == path@,
    {
        let p = String::from_str(path);
        let n = file_vec_len(&self.files);
        let mut i: usize = 0;
        while i < n
            invariant
                p@ == path@,
                n == self@.len(),
                i <= n,
                forall|j: int| 0 <= j < i ==> (#[trigger] self@[j]).name != path@,
            decreases n - i,
        {
            let file = file_vec_get(&self.files, i);
            let same = file.name == p;
            assert(same == (self@[i as int].name == path@));
            if same {
                return true;
            }
            i = i + 1;
        }
        false
    }

    /// Creates a plain file: refused if the name is taken or the store is
    /// full.
    pub fn create_file(&mut self, path: &str, content: &str) -> (r: bool)
        requires
            old(self).wf(),
        ensures
            final(self).wf(),
            r <==> (!(exists|i: int| 0 <= i < old(self)@.len() && (#[trigger] old(self)@[i]).name
                == path@) && old(self)@.len() < MAX_FILES),
            r ==> final(self)@ == old(self)@.push(
                spec_new_file(path@, FileType::RegularFile, content@),
            ),
            !r ==> final(self)@ == old(self)@,
    {
        if self.file_exists(path) {
            return false;
        }
        if file_vec_len(&self.files) < MAX_FILES {
            let file = VirtualFile::new(path, FileType::RegularFile, content);
            let pushed = file_vec_push(&mut self.files, file);
            assert(pushed is Ok);
            proof {
                assert(self@ =~= old(self)@.push(
                    spec_new_file(path@, FileType::RegularFile, content@),
                ));
            }
            true
        } else {
            false
        }
    }

    /// Overwrites the first non-`Proc` entry named `path`; `false` if there
    /// is none.
    pub fn write_file(&mut self, path: &str, content: &str) -> (r: bool)
        requires
            old(self).wf(),
        ensures
            final(self).wf(),
            r <==> exists|i: int|
                0 <= i < old(self)@.len() && (#[trigger] old(self)@[i]).name == path@
                    && old(self)@[i].file_type != FileType::Proc,
            r ==> exists|i: int|
                {
                    &&& 0 <= i < old(self)@.len()
                    &&& (#[trigger] old(self)@[i]).name == path@
                    &&& old(self)@[i].file_type != FileType::Proc
                    &&& (forall|j: int|
                        0 <= j < i ==> !((#[trigger] old(self)@[j]).name == path@ && old(
                            self,
                        )@[j].file_type != FileType::Proc))
                    &&& final(self)@ == old(self)@.update(
                        i,
                        (FileView {
                            content: spec_capped(content@, MAX_CONTENT as int),
                            size: vstd::utf8::encode_utf8(content@).len() as usize,
                            ..old(self)@[i]
                        }),
                    )
                },
            !r ==> final(self)@ == old(self)@,
    {
        let p = String::from_str(path);
        let content_len = content.len();
        proof {
            assert(content.spec_bytes() == vstd::utf8::encode_utf8(content@));
        }
        let n = file_vec_len(&self.files);
        let mut i: usize = 0;
        while i < n
            invariant
                old(self).wf(),
                self@ == old(self)@,
                content_len == vstd::utf8::encode_utf8(content@).len() as usize,
                p@ == path@,
                n == self@.len(),
                i <= n,
                forall|j: int|
                    0 <= j < i ==> !((#[trigger] self@[j]).name == path@ && self@[j].file_type
                        != FileType::Proc),
            decreases n - i,
        {
            let file = file_vec_get(&self.files, i);
            let same = file.name == p;
            assert(same == (self@[i as int].name == path@));
            assert(file.file_type == self@[i as int].file_type);
            if same && !matches!(file.file_type, FileType::Proc) {
                let new_content = if content_len <= MAX_CONTENT {
                    String::from_str(content)
                } else {
                    String::new()
                };
                let updated = VirtualFile {
                    name: file.name.clone(),
                    file_type: file.file_type,
                    content: new_content,
                    size: content_len,
                    permissions: file.permissions,
                };
                file_vec_set(&mut self.files, i, updated);
                proof {
                    assert(self@ =~= old(self)@.update(
                        i as int,
                        (FileView {
                            content: spec_capped(content@, MAX_CONTENT as int),
                            size: vstd::utf8::encode_utf8(content@).len() as usize,
                            ..old(self)@[i as int]
                        }),
                    ));
                }
                return true;
            }
            i = i + 1;
        }
        false
    }

    /// Appends a number's decimal digits.
    fn format_number(&self, string: &mut String, num: u32)
        ensures
            final(string)@ == old(string)@ + spec_decimal(num),
        decreases num,
    {
        if num >= 10 {
            self.format_number(string, num / 10);
        }
        let digit = decimal_digit(num % 10);
        string_push(string, digit);
        proof {
            assert(final(string)@ =~= old(string)@ + spec_decimal(num));
        }
    }

    /// The content of the first entry named `path`, with the uptime
    /// pseudo-file composed live from the timer instead of its stored
    /// (empty) entry.
    pub fn read_file_live(&self, path: &str, timer: &Timer) -> (r: Option<String>)
        ensures
            path@ == "/proc/uptime"@ ==> r is Some && r->Some_0@ == spec_uptime_content(
                ((timer@ / 1000000) as u32),
            ),
            path@ != "/proc/uptime"@ ==> (r is Some <==> first_named(self@, path@) >= 0),
            path@ != "/proc/uptime"@ && r is Some ==> r->Some_0@ == self@[first_named(
                self@,
                path@,
            )].content,
    {
        let p = String::from_str(path);
        let uptime_name = String::from_str("/proc/uptime");
        if p == uptime_name {
            let uptime = timer.get_uptime_seconds();
            let mut content = String::new();
            self.format_number(&mut content, uptime);
            content.append(".00 ");
            self.format_number(&mut content, uptime);
            content.append(".00");
            proof {
                assert(content@ =~= spec_uptime_content((timer@ / 1000000) as u32));
            }
            return Some(content);
        }
        self.read_file(path)
    }

    /// How many entries the store holds, against its capacity.
    pub fn get_stats(&self) -> (r: (usize, usize))
        ensures
            r.0 == self@.len(),
            r.1 == MAX_FILES,
    {
        (file_vec_len(&self.files), MAX_FILES)
    }
}

/// Whether an entry named `path` exists in the store.
pub fn file_exists(fs: &VirtualFileSystem, path: &str) -> (r: bool)
    ensures
        r <==> exists|i: int| 0 <= i < fs@.len() && (#[trigger] fs@[i]).name == path@,
{
    fs.file_exists(path)
}

/// Creates a plain file in the store.
pub fn create_file(fs: &mut VirtualFileSystem, path: &str, content: &str) -> (r: bool)
    requires
        old(fs).wf(),
    ensures
        final(fs).wf(),
        r <==> (!(exists|i: int| 0 <= i < old(fs)@.len() && (#[trigger] old(fs)@[i]).name == path@)
            && old(fs)@.len() < MAX_FILES),
        r ==> final(fs)@ == old(fs)@.push(spec_new_file(path@, FileType::RegularFile, content@)),
        !r ==> final(fs)@ == old(fs)@,
{
    fs.create_file(path, content)
}

/// Overwrites a non-`Proc` file in the store.
pub fn write_file(fs: &mut VirtualFileSystem, path: &str, content: &str) -> (r: bool)
    requires
        old(fs).wf(),
    ensures
        final(fs).wf(),
        r <==> exists|i: int|
            0 <= i < old(fs)@.len() && (#[trigger] old(fs)@[i]).name == path@
                && old(fs)@[i].file_type != FileType::Proc,
        r ==> exists|i: int|
            {
                &&& 0 <= i < old(fs)@.len()
                &&& (#[trigger] old(fs)@[i]).name == path@
                &&& old(fs)@[i].file_type != FileType::Proc
                &&& final(fs)@ == old(fs)@.update(
                    i,
                    (FileView {
                        content: spec_capped(content@, MAX_CONTENT as int),
                        size: vstd::utf8::encode_utf8(content@).len() as usize,
                        ..old(fs)@[i]
                    }),
                )
            },
        !r ==> final(fs)@ == old(fs)@,
{
    fs.write_file(path, content)
}

} // verus!
