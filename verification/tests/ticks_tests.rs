use statsdump::{
    mount_tick, proc_tick, sys_tick, LoadAvgText, MemStats, MountInfo, ProcInfo, SysInfo,
    SysLoopState, VfsStats,
};

fn sample(time_ms: Option<u128>) -> SysInfo {
    SysInfo::new(
        "host1".to_string(),
        Some(MemStats { mem_total: 100, mem_free: 50, buffers: 5, cached: 10 }),
        Some(LoadAvgText {
            one: "0.10".to_string(),
            five: "0.20".to_string(),
            fifteen: "0.30".to_string(),
        }),
        time_ms,
    )
}

const SYS_HEADER: &str =
    "id,time_ms,mem_total,mem_free,mem_buffers,mem_cached,load_avg_1,load_avg_5,load_avg_15\n";

#[test]
fn sys_loop_emits_header_exactly_once() {
    let mut st = SysLoopState::start();
    let mut all_lines: Vec<String> = Vec::new();
    for tick in 0..3u32 {
        let (next, lines) = sys_tick(st, &sample(Some(1000 + tick as u128)));
        st = next;
        all_lines.extend(lines);
    }
    // three ticks, one header: four lines, the header first and nowhere else
    assert_eq!(all_lines.len(), 4);
    assert_eq!(all_lines[0], SYS_HEADER);
    let headers = all_lines.iter().filter(|l| l.as_str() == SYS_HEADER).count();
    assert_eq!(headers, 1);
    assert_eq!(all_lines[1], "host1,1000,100,50,5,10,0.10,0.20,0.30\n");
    assert_eq!(all_lines[2], "host1,1001,100,50,5,10,0.10,0.20,0.30\n");
    assert_eq!(all_lines[3], "host1,1002,100,50,5,10,0.10,0.20,0.30\n");
}

#[test]
fn proc_tick_emits_header_every_batch() {
    let procs = vec![
        ProcInfo::new(Some(9), 1, 0, 1, 2, 3, 4, Some(5), Some(vec!["init".to_string()])),
        ProcInfo::new(Some(9), 42, 1000, 8, 7, 6, 5, None, None),
    ];
    let header = "time_ms,pid,owner,open_fd_count,num_threads,starttime,utime,stime,cmdline\n";
    for _ in 0..2 {
        let lines = proc_tick(&procs);
        assert_eq!(lines.len(), 3);
        assert_eq!(lines[0], header);
        assert_eq!(lines[1], "9,1,0,5,1,2,3,4,init\n");
        assert_eq!(lines[2], "9,42,1000,-1,8,7,6,5,?\n");
    }
}

#[test]
fn proc_tick_with_no_processes_emits_nothing() {
    let lines = proc_tick(&vec![]);
    assert!(lines.is_empty());
}

#[test]
fn mount_tick_emits_header_every_batch() {
    let stats = VfsStats { f_blocks: 1000, f_bfree: 400, f_bavail: 350, f_frsize: 1024 };
    let mounts = vec![MountInfo::new(
        Some(77),
        "/dev/sda1".to_string(),
        "/".to_string(),
        "ext4".to_string(),
        &vec!["rw".to_string()],
        0,
        1,
        Some(stats),
    )];
    let header = "time_ms,source,dest,fstype,options,dump,pass,used,available,total,use_pc\n";
    for _ in 0..2 {
        let lines = mount_tick(Some(&mounts));
        assert_eq!(lines.len(), 2);
        assert_eq!(lines[0], header);
        assert_eq!(lines[1], "77,/dev/sda1,/,ext4,rw,0,1,600,350,1000,63\n");
    }
}

#[test]
fn mount_tick_skips_batch_when_table_unreadable() {
    assert!(mount_tick(None).is_empty());
}

#[test]
fn reruns_differ_only_in_timestamp_column() {
    // identical readings sampled at two different instants
    let a = sample(Some(1000));
    let b = sample(Some(2000));
    let ra = a.row();
    let rb = b.row();
    assert_eq!(ra.len(), rb.len());
    for j in 0..ra.len() {
        if j == 1 {
            assert_eq!(ra[j], "1000");
            assert_eq!(rb[j], "2000");
        } else {
            assert_eq!(ra[j], rb[j]);
        }
    }
    // and with identical clocks the rows are byte-identical
    let c = sample(Some(1000));
    let (_, la) = sys_tick(SysLoopState::start(), &a);
    let (_, lc) = sys_tick(SysLoopState::start(), &c);
    assert_eq!(la, lc);
}
