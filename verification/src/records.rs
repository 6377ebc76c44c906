//! The record shapes, one per collection domain, each an immutable snapshot
//! produced fresh on every tick, together with the column order of its
//! output row.
//!
//! Every optional measurement stays an explicit `Option`: an unreadable
//! counter renders as an empty column, never as a zero, so "unknown" and
//! "zero" stay distinct in the stream.

use crate::strutil::{join_with, joined_with};
use crate::usage::{fs_usage, spec_fs_usage, VfsStats};
use vstd::prelude::*;
use vstd::string::StringExecFns;

verus! {

/// The memory counter group of one sample, in kilobytes, as the host's
/// memory summary reports it. The group is read as a whole: either all
/// four counters arrive or none does.
#[derive(Clone, Copy)]
pub struct MemStats {
    pub mem_total: u64,
    pub mem_free: u64,
    pub buffers: u64,
    pub cached: u64,
}

/// The load-average group of one sample. The averages are fractional
/// readings; they are carried as the decimal text the host reports, since
/// nothing here computes with them. The group arrives or fails as a whole.
pub struct LoadAvgText {
    pub one: String,
    pub five: String,
    pub fifteen: String,
}

/// One host-level sample: an operator-supplied label, a timestamp attempt,
/// and the two independently fault-tolerant counter groups.
pub struct SysInfo {
    pub id: String,
    pub time_ms: Option<u128>,
    pub mem_total: Option<u64>,
    pub mem_free: Option<u64>,
    pub mem_buffers: Option<u64>,
    pub mem_cached: Option<u64>,
    pub load_avg_1: Option<String>,
    pub load_avg_5: Option<String>,
    pub load_avg_15: Option<String>,
}

/// One per-process sample at one tick.
pub struct ProcInfo {
    pub time_ms: Option<u128>,
    pub pid: i32,
    pub owner: u32,
    pub open_fd_count: i64,
    pub num_threads: i64,
    pub starttime: i64,
    pub utime: u64,
    pub stime: u64,
    pub cmdline: String,
}

/// One mounted-filesystem sample at one tick.
pub struct MountInfo {
    pub time_ms: Option<u128>,
    pub source: String,
    pub dest: String,
    pub fstype: String,
    pub options: String,
    pub dump: i32,
    pub pass: i32,
    pub used: u64,
    pub available: u64,
    pub total: u64,
    pub use_pc: u32,
}

/// One swap-device sample: present in the data model as an extension
/// point, not wired into any active emission path.
pub struct SwapInfo {
    pub time_ms: Option<u128>,
    pub source: String,
    pub kind: String,
    pub size: usize,
    pub used: usize,
    pub priority: isize,
}

/// The sample `SysInfo::new` builds: each counter group is taken whole
/// when its read succeeded and left wholly absent when it failed.
pub open spec fn sys_sample(
    id: String,
    mem: Option<MemStats>,
    load: Option<LoadAvgText>,
    time_ms: Option<u128>,
) -> SysInfo {
    SysInfo {
        id: id,
        time_ms: time_ms,
        mem_total: match mem {
            Some(m) => Some(m.mem_total),
            None => None,
        },
        mem_free: match mem {
            Some(m) => Some(m.mem_free),
            None => None,
        },
        mem_buffers: match mem {
            Some(m) => Some(m.buffers),
            None => None,
        },
        mem_cached: match mem {
            Some(m) => Some(m.cached),
            None => None,
        },
        load_avg_1: match load {
            Some(l) => Some(l.one),
            None => None,
        },
        load_avg_5: match load {
            Some(l) => Some(l.five),
            None => None,
        },
        load_avg_15: match load {
            Some(l) => Some(l.fifteen),
            None => None,
        },
    }
}

impl SysInfo {
    /// Bundle one tick's host readings into a sample. A failed read of
    /// either counter group (`None`) leaves that group's fields absent
    /// without touching the other group, the label or the timestamp.
    pub fn new(
        id: String,
        mem: Option<MemStats>,
        load: Option<LoadAvgText>,
        time_ms: Option<u128>,
    ) -> (r: SysInfo)
        ensures
            r == sys_sample(id, mem, load, time_ms),
    {
        let (mem_total, mem_free, mem_buffers, mem_cached) = match mem {
            Some(m) => (Some(m.mem_total), Some(m.mem_free), Some(m.buffers), Some(m.cached)),
            None => (None, None, None, None),
        };
        let (load_avg_1, load_avg_5, load_avg_15) = match load {
            Some(l) => (Some(l.one), Some(l.five), Some(l.fifteen)),
            None => (None, None, None),
        };
        SysInfo {
            id,
            time_ms,
            mem_total,
            mem_free,
            mem_buffers,
            mem_cached,
            load_avg_1,
            load_avg_5,
            load_avg_15,
        }
    }
}

/// The sentinel rule for the open-descriptor count: the count itself when
/// the read succeeded, and -1 when it failed.
pub open spec fn fd_count_or_sentinel(fd_count: Option<usize>) -> i64 {
    match fd_count {
        Some(n) => n as i64,
        None => -1i64,
    }
}

/// The placeholder rule for a command line: the words joined with single
/// spaces, or the literal `?` when the read failed or came back empty.
pub open spec fn cmdline_text(items: Option<Seq<Seq<char>>>) -> Seq<char> {
    match items {
        Some(list) => if list.len() == 0 {
            "?"@
        } else {
            joined_with(list, ' ')
        },
        None => "?"@,
    }
}

impl ProcInfo {
    /// Bundle one process's readings into a sample. The two per-process
    /// sub-reads are independently fault-tolerant: a failed descriptor
    /// count becomes the -1 sentinel and a failed or empty command line
    /// the `?` placeholder, and neither failure disturbs any other field.
    pub fn new(
        time_ms: Option<u128>,
        pid: i32,
        owner: u32,
        num_threads: i64,
        starttime: i64,
        utime: u64,
        stime: u64,
        fd_count: Option<usize>,
        cmdline: Option<Vec<String>>,
    ) -> (r: ProcInfo)
        requires
            fd_count matches Some(n) ==> n <= i64::MAX,
        ensures
            r.time_ms == time_ms,
            r.pid == pid,
            r.owner == owner,
            r.num_threads == num_threads,
            r.starttime == starttime,
            r.utime == utime,
            r.stime == stime,
            r.open_fd_count == fd_count_or_sentinel(fd_count),
            r.cmdline@ == cmdline_text(opt_string_views(cmdline)),
    {
        let open_fd_count: i64 = match fd_count {
            Some(n) => n as i64,
            None => -1,
        };
        let cmdline_str: String = match cmdline {
            Some(items) => if items.len() == 0 {
                String::from_str("?")
            } else {
                join_with(&items, ' ')
            },
            None => String::from_str("?"),
        };
        ProcInfo {
            time_ms,
            pid,
            owner,
            open_fd_count,
            num_threads,
            starttime,
            utime,
            stime,
            cmdline: cmdline_str,
        }
    }
}

/// The views of an optional list of strings.
pub open spec fn opt_string_views(o: Option<Vec<String>>) -> Option<Seq<Seq<char>>> {
    match o {
        Some(v) => Some(v@.map_values(|s: String| s@)),
        None => None,
    }
}

impl MountInfo {
    /// Bundle one mount-table entry and its capacity query into a sample.
    /// The option list is flattened with `;`, and the four usage columns
    /// come from `fs_usage` on the query's outcome, including its
    /// fail-safe `(0, 0, 0, 100)` for a failed query.
    pub fn new(
        time_ms: Option<u128>,
        source: String,
        dest: String,
        fstype: String,
        options: &Vec<String>,
        dump: i32,
        pass: i32,
        stats: Option<VfsStats>,
    ) -> (r: MountInfo)
        requires
            stats matches Some(st) ==> {
                &&& st.f_blocks * st.f_frsize <= u64::MAX
                &&& st.f_bavail * st.f_frsize <= u64::MAX
                &&& st.f_bfree <= st.f_blocks
            },
        ensures
            r.time_ms == time_ms,
            r.source == source,
            r.dest == dest,
            r.fstype == fstype,
            r.options@ == joined_with(options@.map_values(|o: String| o@), ';'),
            r.dump == dump,
            r.pass == pass,
            (r.used as nat, r.available as nat, r.total as nat, r.use_pc as nat)
                == spec_fs_usage(stats),
    {
        let (used, available, total, use_pc) = fs_usage(stats);
        MountInfo {
            time_ms,
            source,
            dest,
            fstype,
            options: join_with(options, ';'),
            dump,
            pass,
            used,
            available,
            total,
            use_pc,
        }
    }
}

impl SwapInfo {
    /// Bundle one swap-device entry into a sample; every field carries
    /// over unchanged.
    pub fn new(
        time_ms: Option<u128>,
        source: String,
        kind: String,
        size: usize,
        used: usize,
        priority: isize,
    ) -> (r: SwapInfo)
        ensures
            r.time_ms == time_ms,
            r.source == source,
            r.kind == kind,
            r.size == size,
            r.used == used,
            r.priority == priority,
    {
        SwapInfo { time_ms, source, kind, size, used, priority }
    }
}

} // verus!
