use statsdump::{LoadAvgText, MemStats, MountInfo, ProcInfo, SwapInfo, SysInfo, VfsStats};

fn mem() -> MemStats {
    MemStats { mem_total: 16384, mem_free: 8192, buffers: 512, cached: 1024 }
}

fn load() -> LoadAvgText {
    LoadAvgText { one: "0.52".to_string(), five: "0.48".to_string(), fifteen: "0.40".to_string() }
}

#[test]
fn sys_sample_all_groups_present() {
    let s = SysInfo::new("host1".to_string(), Some(mem()), Some(load()), Some(1700000000000));
    assert_eq!(s.id, "host1");
    assert_eq!(s.time_ms, Some(1700000000000));
    assert_eq!(s.mem_total, Some(16384));
    assert_eq!(s.mem_free, Some(8192));
    assert_eq!(s.mem_buffers, Some(512));
    assert_eq!(s.mem_cached, Some(1024));
    assert_eq!(s.load_avg_1.as_deref(), Some("0.52"));
    assert_eq!(s.load_avg_5.as_deref(), Some("0.48"));
    assert_eq!(s.load_avg_15.as_deref(), Some("0.40"));
}

#[test]
fn sys_sample_failed_reads_leave_fields_absent() {
    // memory read failed, load read succeeded: only the memory group is absent
    let s = SysInfo::new("host1".to_string(), None, Some(load()), Some(42));
    assert_eq!(s.mem_total, None);
    assert_eq!(s.mem_free, None);
    assert_eq!(s.mem_buffers, None);
    assert_eq!(s.mem_cached, None);
    assert_eq!(s.load_avg_1.as_deref(), Some("0.52"));
    assert_eq!(s.id, "host1");
    assert_eq!(s.time_ms, Some(42));

    // both reads failed, clock failed too: id still present, all else absent
    let s = SysInfo::new("host1".to_string(), None, None, None);
    assert_eq!(s.id, "host1");
    assert_eq!(s.time_ms, None);
    assert_eq!(s.mem_total, None);
    assert_eq!(s.load_avg_15, None);
    // absent renders as the empty column, not as zero
    let row = s.row();
    assert_eq!(row[0], "host1");
    for col in &row[1..] {
        assert_eq!(col, "");
    }
}

#[test]
fn proc_sample_cmdline_failure_keeps_process() {
    let p = ProcInfo::new(Some(7), 1234, 1000, 4, 99, 10, 20, Some(32), None);
    assert_eq!(p.cmdline, "?");
    assert_eq!(p.pid, 1234);
    assert_eq!(p.owner, 1000);
    assert_eq!(p.open_fd_count, 32);
    assert_eq!(p.num_threads, 4);
    assert_eq!(p.starttime, 99);
    assert_eq!(p.utime, 10);
    assert_eq!(p.stime, 20);
    assert_eq!(p.time_ms, Some(7));
}

#[test]
fn proc_sample_empty_cmdline_is_placeholder() {
    let p = ProcInfo::new(None, 2, 0, 1, 0, 0, 0, None, Some(vec![]));
    assert_eq!(p.cmdline, "?");
    // failed descriptor read becomes the -1 sentinel
    assert_eq!(p.open_fd_count, -1);
}

#[test]
fn proc_sample_cmdline_joined_with_spaces() {
    let p = ProcInfo::new(
        None,
        2,
        0,
        1,
        0,
        0,
        0,
        Some(3),
        Some(vec!["/bin/prog".to_string(), "--flag".to_string(), "x".to_string()]),
    );
    assert_eq!(p.cmdline, "/bin/prog --flag x");
    assert_eq!(p.open_fd_count, 3);
}

#[test]
fn mount_sample_flattens_options_and_derives_usage() {
    let stats = VfsStats { f_blocks: 1000, f_bfree: 400, f_bavail: 350, f_frsize: 1024 };
    let m = MountInfo::new(
        Some(5),
        "/dev/sda1".to_string(),
        "/".to_string(),
        "ext4".to_string(),
        &vec!["rw".to_string(), "relatime".to_string()],
        0,
        1,
        Some(stats),
    );
    assert_eq!(m.options, "rw;relatime");
    assert_eq!((m.used, m.available, m.total, m.use_pc), (600, 350, 1000, 63));
    assert_eq!(m.dump, 0);
    assert_eq!(m.pass, 1);
    assert_eq!(m.source, "/dev/sda1");
    assert_eq!(m.dest, "/");
    assert_eq!(m.fstype, "ext4");
}

#[test]
fn mount_sample_failed_query_is_fail_safe() {
    let m = MountInfo::new(
        None,
        "proc".to_string(),
        "/proc".to_string(),
        "proc".to_string(),
        &vec![],
        0,
        0,
        None,
    );
    assert_eq!((m.used, m.available, m.total, m.use_pc), (0, 0, 0, 100));
    assert_eq!(m.options, "");
}

#[test]
fn swap_sample_carries_fields() {
    let s = SwapInfo::new(Some(1), "/dev/dm-1".to_string(), "partition".to_string(), 8192, 10, -2);
    assert_eq!(s.time_ms, Some(1));
    assert_eq!(s.source, "/dev/dm-1");
    assert_eq!(s.kind, "partition");
    assert_eq!(s.size, 8192);
    assert_eq!(s.used, 10);
    assert_eq!(s.priority, -2);
}
