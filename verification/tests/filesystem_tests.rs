use kernel_core::filesystem::{
    create_file, file_exists, write_file, FileType, VirtualFile, VirtualFileSystem,
};
use kernel_core::timer::Timer;

#[test]
fn the_store_is_seeded_with_the_pseudo_file_tree() {
    let fs = VirtualFileSystem::new();
    for path in [
        "/", "/proc", "/proc/version", "/proc/cpuinfo", "/proc/meminfo", "/proc/uptime",
        "/proc/loadavg", "/dev", "/dev/null", "/dev/zero", "/dev/uart0", "/dev/mem", "/sys",
        "/sys/class", "/sys/class/gpio", "/tmp", "/etc", "/etc/hostname", "/etc/passwd",
    ] {
        assert!(file_exists(&fs, path), "missing default entry {}", path);
    }
    assert!(!file_exists(&fs, "/tmp/testfile"));
    assert_eq!(fs.get_stats(), (19, 32));
}

#[test]
fn read_file_returns_the_stored_content() {
    let fs = VirtualFileSystem::new();
    assert_eq!(fs.read_file("/etc/hostname").unwrap().as_str(), "pi5-minimal");
    assert_eq!(
        fs.read_file("/etc/passwd").unwrap().as_str(),
        "root:x:0:0:root:/root:/bin/sh"
    );
    assert!(fs.read_file("/no/such/file").is_none());
}

#[test]
fn create_then_read_round_trips() {
    let mut fs = VirtualFileSystem::new();
    assert!(create_file(&mut fs, "/tmp/notes", "remember the milk"));
    assert!(file_exists(&fs, "/tmp/notes"));
    assert_eq!(fs.read_file("/tmp/notes").unwrap().as_str(), "remember the milk");
}

#[test]
fn create_rejects_duplicates() {
    let mut fs = VirtualFileSystem::new();
    assert!(create_file(&mut fs, "/tmp/once", ""));
    assert!(!create_file(&mut fs, "/tmp/once", "again"));
    assert!(!create_file(&mut fs, "/etc/hostname", "taken"));
}

#[test]
fn write_overwrites_regular_files_only() {
    let mut fs = VirtualFileSystem::new();
    assert!(write_file(&mut fs, "/etc/hostname", "renamed-host"));
    assert_eq!(fs.read_file("/etc/hostname").unwrap().as_str(), "renamed-host");
    // Proc entries are read-only, and missing files are not created.
    assert!(!write_file(&mut fs, "/proc/version", "forged"));
    assert!(!write_file(&mut fs, "/tmp/missing", "nothing"));
    assert_eq!(
        fs.read_file("/proc/version").unwrap().as_str(),
        "Minimal Pi5 OS version 0.1.0 (root@pi5) (aarch64) #1"
    );
}

#[test]
fn the_store_is_bounded() {
    let mut fs = VirtualFileSystem::new();
    let mut made: u32 = 0;
    for i in 0..32 {
        let name = format!("/tmp/f{}", i);
        if create_file(&mut fs, &name, "") {
            made += 1;
        }
    }
    // 19 seeded entries leave room for 13 more.
    assert_eq!(made, 13);
    assert_eq!(fs.get_stats(), (32, 32));
    assert!(!create_file(&mut fs, "/tmp/overflow", ""));
}

#[test]
fn overlong_names_and_contents_are_dropped() {
    // A name or content past the cap is not stored: the entry keeps an
    // empty string (and remembers the offered content's size).
    let long_name = "n".repeat(65);
    let f = VirtualFile::new(&long_name, FileType::RegularFile, "body");
    assert_eq!(f.name.as_str(), "");
    assert_eq!(f.content.as_str(), "body");

    let long_content = "c".repeat(1025);
    let g = VirtualFile::new("/tmp/big", FileType::RegularFile, &long_content);
    assert_eq!(g.name.as_str(), "/tmp/big");
    assert_eq!(g.content.as_str(), "");
    assert_eq!(g.size, 1025);
}

#[test]
fn permissions_follow_the_file_type() {
    assert_eq!(VirtualFile::new("/d", FileType::Directory, "").permissions, 0o755);
    assert_eq!(VirtualFile::new("/v", FileType::Device, "").permissions, 0o666);
    assert_eq!(VirtualFile::new("/p", FileType::Proc, "").permissions, 0o444);
    assert_eq!(VirtualFile::new("/r", FileType::RegularFile, "").permissions, 0o644);
}

#[test]
fn the_uptime_pseudo_file_is_composed_live() {
    let fs = VirtualFileSystem::new();
    let mut timer = Timer::new();
    assert_eq!(
        fs.read_file_live("/proc/uptime", &timer).unwrap().as_str(),
        "0.00 0.00"
    );
    timer.advance_us(42_000_000);
    assert_eq!(
        fs.read_file_live("/proc/uptime", &timer).unwrap().as_str(),
        "42.00 42.00"
    );
    timer.advance_us(958_000_000);
    assert_eq!(
        fs.read_file_live("/proc/uptime", &timer).unwrap().as_str(),
        "1000.00 1000.00"
    );
    // Every other path reads as stored.
    assert_eq!(
        fs.read_file_live("/etc/hostname", &timer).unwrap().as_str(),
        "pi5-minimal"
    );
    assert!(fs.read_file_live("/no/such/file", &timer).is_none());
}
