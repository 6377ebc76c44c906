//! Column order of each record shape, and the rendering of one record
//! into its row of column texts.
//!
//! An absent optional measurement renders as the empty column; numeric
//! columns render in plain decimal.

use crate::numfmt::{dec_str, dec_str_signed, i64_to_dec, u128_to_dec, u64_to_dec};
use crate::records::{MountInfo, ProcInfo, SysInfo};
use vstd::prelude::*;
use vstd::string::StringExecFns;

verus! {

/// The text of an optional kilobyte counter: its decimal digits, or the
/// empty column when the reading is absent.
pub open spec fn opt_u64_text(o: Option<u64>) -> Seq<char> {
    match o {
        Some(n) => dec_str(n as nat),
        None => Seq::<char>::empty(),
    }
}

/// The text of an optional timestamp: its decimal digits, or the empty
/// column when the clock read failed.
pub open spec fn opt_u128_text(o: Option<u128>) -> Seq<char> {
    match o {
        Some(n) => dec_str(n as nat),
        None => Seq::<char>::empty(),
    }
}

/// The text of an optional textual reading: itself, or the empty column.
pub open spec fn opt_string_text(o: Option<String>) -> Seq<char> {
    match o {
        Some(s) => s@,
        None => Seq::<char>::empty(),
    }
}

fn opt_u64_field(o: &Option<u64>) -> (r: String)
    ensures
        r@ == opt_u64_text(*o),
{
    match o {
        Some(n) => u64_to_dec(*n),
        None => String::new(),
    }
}

fn opt_u128_field(o: &Option<u128>) -> (r: String)
    ensures
        r@ == opt_u128_text(*o),
{
    match o {
        Some(n) => u128_to_dec(*n),
        None => String::new(),
    }
}

fn opt_string_field(o: &Option<String>) -> (r: String)
    ensures
        r@ == opt_string_text(*o),
{
    match o {
        Some(s) => s.clone(),
        None => String::new(),
    }
}

/// The column names of the host-sample shape, in emission order.
pub open spec fn sys_header_fields() -> Seq<Seq<char>> {
    seq![
        "id"@,
        "time_ms"@,
        "mem_total"@,
        "mem_free"@,
        "mem_buffers"@,
        "mem_cached"@,
        "load_avg_1"@,
        "load_avg_5"@,
        "load_avg_15"@,
    ]
}

/// The columns of one host sample, in emission order.
pub open spec fn spec_sys_row(s: SysInfo) -> Seq<Seq<char>> {
    seq![
        s.id@,
        opt_u128_text(s.time_ms),
        opt_u64_text(s.mem_total),
        opt_u64_text(s.mem_free),
        opt_u64_text(s.mem_buffers),
        opt_u64_text(s.mem_cached),
        opt_string_text(s.load_avg_1),
        opt_string_text(s.load_avg_5),
        opt_string_text(s.load_avg_15),
    ]
}

/// The column names of the per-process shape, in emission order.
pub open spec fn proc_header_fields() -> Seq<Seq<char>> {
    seq![
        "time_ms"@,
        "pid"@,
        "owner"@,
        "open_fd_count"@,
        "num_threads"@,
        "starttime"@,
        "utime"@,
        "stime"@,
        "cmdline"@,
    ]
}

/// The columns of one per-process sample, in emission order.
pub open spec fn spec_proc_row(p: ProcInfo) -> Seq<Seq<char>> {
    seq![
        opt_u128_text(p.time_ms),
        dec_str_signed(p.pid as int),
        dec_str(p.owner as nat),
        dec_str_signed(p.open_fd_count as int),
        dec_str_signed(p.num_threads as int),
        dec_str_signed(p.starttime as int),
        dec_str(p.utime as nat),
        dec_str(p.stime as nat),
        p.cmdline@,
    ]
}

/// The column names of the per-mount shape, in emission order.
pub open spec fn mount_header_fields() -> Seq<Seq<char>> {
    seq![
        "time_ms"@,
        "source"@,
        "dest"@,
        "fstype"@,
        "options"@,
        "dump"@,
        "pass"@,
        "used"@,
        "available"@,
        "total"@,
        "use_pc"@,
    ]
}

/// The columns of one per-mount sample, in emission order.
pub open spec fn spec_mount_row(m: MountInfo) -> Seq<Seq<char>> {
    seq![
        opt_u128_text(m.time_ms),
        m.source@,
        m.dest@,
        m.fstype@,
        m.options@,
        dec_str_signed(m.dump as int),
        dec_str_signed(m.pass as int),
        dec_str(m.used as nat),
        dec_str(m.available as nat),
        dec_str(m.total as nat),
        dec_str(m.use_pc as nat),
    ]
}

/// The host-sample header row, per `sys_header_fields`.
pub fn sys_header() -> (v: Vec<String>)
    ensures
        v@.map_values(|f: String| f@) == sys_header_fields(),
{
    let mut v: Vec<String> = Vec::new();
    v.push(String::from_str("id"));
    v.push(String::from_str("time_ms"));
    v.push(String::from_str("mem_total"));
    v.push(String::from_str("mem_free"));
    v.push(String::from_str("mem_buffers"));
    v.push(String::from_str("mem_cached"));
    v.push(String::from_str("load_avg_1"));
    v.push(String::from_str("load_avg_5"));
    v.push(String::from_str("load_avg_15"));
    proof {
        assert(v@.map_values(|f: String| f@) =~= sys_header_fields());
    }
    v
}

/// The per-process header row, per `proc_header_fields`.
pub fn proc_header() -> (v: Vec<String>)
    ensures
        v@.map_values(|f: String| f@) == proc_header_fields(),
{
    let mut v: Vec<String> = Vec::new();
    v.push(String::from_str("time_ms"));
    v.push(String::from_str("pid"));
    v.push(String::from_str("owner"));
    v.push(String::from_str("open_fd_count"));
    v.push(String::from_str("num_threads"));
    v.push(String::from_str("starttime"));
    v.push(String::from_str("utime"));
    v.push(String::from_str("stime"));
    v.push(String::from_str("cmdline"));
    proof {
        assert(v@.map_values(|f: String| f@) =~= proc_header_fields());
    }
    v
}

/// The per-mount header row, per `mount_header_fields`.
pub fn mount_header() -> (v: Vec<String>)
    ensures
        v@.map_values(|f: String| f@) == mount_header_fields(),
{
    let mut v: Vec<String> = Vec::new();
    v.push(String::from_str("time_ms"));
    v.push(String::from_str("source"));
    v.push(String::from_str("dest"));
    v.push(String::from_str("fstype"));
    v.push(String::from_str("options"));
    v.push(String::from_str("dump"));
    v.push(String::from_str("pass"));
    v.push(String::from_str("used"));
    v.push(String::from_str("available"));
    v.push(String::from_str("total"));
    v.push(String::from_str("use_pc"));
    proof {
        assert(v@.map_values(|f: String| f@) =~= mount_header_fields());
    }
    v
}

impl SysInfo {
    /// This sample's row, per `spec_sys_row`.
    pub fn row(&self) -> (v: Vec<String>)
        ensures
            v@.map_values(|f: String| f@) == spec_sys_row(*self),
    {
        let mut v: Vec<String> = Vec::new();
        v.push(self.id.clone());
        v.push(opt_u128_field(&self.time_ms));
        v.push(opt_u64_field(&self.mem_total));
        v.push(opt_u64_field(&self.mem_free));
        v.push(opt_u64_field(&self.mem_buffers));
        v.push(opt_u64_field(&self.mem_cached));
        v.push(opt_string_field(&self.load_avg_1));
        v.push(opt_string_field(&self.load_avg_5));
        v.push(opt_string_field(&self.load_avg_15));
        proof {
            assert(v@.map_values(|f: String| f@) =~= spec_sys_row(*self));
        }
        v
    }
}

impl ProcInfo {
    /// This sample's row, per `spec_proc_row`.
    pub fn row(&self) -> (v: Vec<String>)
        ensures
            v@.map_values(|f: String| f@) == spec_proc_row(*self),
    {
        let mut v: Vec<String> = Vec::new();
        v.push(opt_u128_field(&self.time_ms));
        v.push(i64_to_dec(self.pid as i64));
        v.push(u64_to_dec(self.owner as u64));
        v.push(i64_to_dec(self.open_fd_count));
        v.push(i64_to_dec(self.num_threads));
        v.push(i64_to_dec(self.starttime));
        v.push(u64_to_dec(self.utime));
        v.push(u64_to_dec(self.stime));
        v.push(self.cmdline.clone());
        proof {
            assert(v@.map_values(|f: String| f@) =~= spec_proc_row(*self));
        }
        v
    }
}

impl MountInfo {
    /// This sample's row, per `spec_mount_row`.
    pub fn row(&self) -> (v: Vec<String>)
        ensures
            v@.map_values(|f: String| f@) == spec_mount_row(*self),
    {
        let mut v: Vec<String> = Vec::new();
        v.push(opt_u128_field(&self.time_ms));
        v.push(self.source.clone());
        v.push(self.dest.clone());
        v.push(self.fstype.clone());
        v.push(self.options.clone());
        v.push(i64_to_dec(self.dump as i64));
        v.push(i64_to_dec(self.pass as i64));
        v.push(u64_to_dec(self.used));
        v.push(u64_to_dec(self.available));
        v.push(u64_to_dec(self.total));
        v.push(u64_to_dec(self.use_pc as u64));
        proof {
            assert(v@.map_values(|f: String| f@) =~= spec_mount_row(*self));
        }
        v
    }
}

} // verus!
