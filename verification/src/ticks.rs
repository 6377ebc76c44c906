//! One tick of each collection domain as a pure step: samples in, output
//! lines out. The driver binary only repeats these steps around a fixed
//! sleep; every decision about what a tick emits is made here.
//!
//! Header policy: the host-sample loop writes its header line once per
//! loop lifetime, tracked by `SysLoopState`; the per-process and
//! per-mount loops start every non-empty tick batch with a fresh header
//! line, because their emission channel is rebuilt each tick.

use crate::csvline::{csv_encode_line, csv_line};
use crate::records::{MountInfo, ProcInfo, SysInfo};
use crate::rows::{
    mount_header, mount_header_fields, proc_header, proc_header_fields, spec_mount_row,
    spec_proc_row, spec_sys_row, sys_header, sys_header_fields,
};
use vstd::prelude::*;

verus! {

/// The one piece of state the host-sample loop carries across ticks:
/// whether its header line has already been written.
#[derive(Clone, Copy)]
pub struct SysLoopState {
    pub header_written: bool,
}

impl SysLoopState {
    /// The state at loop start: no header written yet.
    pub fn start() -> (r: SysLoopState)
        ensures
            !r.header_written,
    {
        SysLoopState { header_written: false }
    }
}

/// The host-sample header line.
pub open spec fn sys_header_line() -> Seq<char> {
    csv_line(sys_header_fields())
}

/// The encoded line of one host sample.
pub open spec fn sys_row_line(s: SysInfo) -> Seq<char> {
    csv_line(spec_sys_row(s))
}

/// The per-process header line.
pub open spec fn proc_header_line() -> Seq<char> {
    csv_line(proc_header_fields())
}

/// The encoded line of one per-process sample.
pub open spec fn proc_row_line(p: ProcInfo) -> Seq<char> {
    csv_line(spec_proc_row(p))
}

/// The per-mount header line.
pub open spec fn mount_header_line() -> Seq<char> {
    csv_line(mount_header_fields())
}

/// The encoded line of one per-mount sample.
pub open spec fn mount_row_line(m: MountInfo) -> Seq<char> {
    csv_line(spec_mount_row(m))
}

/// What one host-domain tick emits: the sample's line, preceded by the
/// header line only when no header has been written in this loop yet.
pub open spec fn spec_sys_tick_lines(st: SysLoopState, s: SysInfo) -> Seq<Seq<char>> {
    if st.header_written {
        seq![sys_row_line(s)]
    } else {
        seq![sys_header_line(), sys_row_line(s)]
    }
}

/// One host-domain tick: encode the sample, with the header line first if
/// this loop has not written one yet, and mark the header as written.
pub fn sys_tick(st: SysLoopState, sample: &SysInfo) -> (r: (SysLoopState, Vec<String>))
    ensures
        r.0.header_written,
        r.1@.map_values(|l: String| l@) == spec_sys_tick_lines(st, *sample),
{
    let mut lines: Vec<String> = Vec::new();
    if !st.header_written {
        lines.push(csv_encode_line(&sys_header()));
    }
    lines.push(csv_encode_line(&sample.row()));
    proof {
        assert(lines@.map_values(|l: String| l@) =~= spec_sys_tick_lines(st, *sample));
    }
    (SysLoopState { header_written: true }, lines)
}

/// What one process-domain tick emits: nothing when no process was
/// enumerated, else a fresh header line followed by one line per process,
/// in enumeration order.
pub open spec fn spec_proc_tick_lines(ps: Seq<ProcInfo>) -> Seq<Seq<char>> {
    if ps.len() == 0 {
        Seq::empty()
    } else {
        seq![proc_header_line()] + ps.map_values(|p: ProcInfo| proc_row_line(p))
    }
}

/// One process-domain tick, per `spec_proc_tick_lines`.
pub fn proc_tick(samples: &Vec<ProcInfo>) -> (lines: Vec<String>)
    ensures
        lines@.map_values(|l: String| l@) == spec_proc_tick_lines(samples@),
{
    let mut lines: Vec<String> = Vec::new();
    if samples.len() == 0 {
        proof {
            assert(lines@.map_values(|l: String| l@) =~= spec_proc_tick_lines(samples@));
        }
        return lines;
    }
    lines.push(csv_encode_line(&proc_header()));
    let mut i: usize = 0;
    while i < samples.len()
        invariant
            0 <= i <= samples.len(),
            samples.len() > 0,
            lines@.map_values(|l: String| l@) =~= seq![proc_header_line()] + samples@.take(
                i as int,
            ).map_values(|p: ProcInfo| proc_row_line(p)),
        decreases samples.len() - i,
    {
        let row = samples[i].row();
        let line = csv_encode_line(&row);
        let ghost prev = lines@;
        lines.push(line);
        proof {
            assert(lines@.map_values(|l: String| l@) =~= prev.map_values(|l: String| l@).push(
                proc_row_line(samples@[i as int]),
            ));
            assert(samples@.take(i + 1 as int).map_values(|p: ProcInfo| proc_row_line(p))
                =~= samples@.take(i as int).map_values(|p: ProcInfo| proc_row_line(p)).push(
                proc_row_line(samples@[i as int]),
            ));
            assert(lines@.map_values(|l: String| l@) =~= seq![proc_header_line()]
                + samples@.take(i + 1 as int).map_values(|p: ProcInfo| proc_row_line(p)));
        }
        i = i + 1;
    }
    proof {
        assert(samples@.take(samples.len() as int) =~= samples@);
        assert(lines@.map_values(|l: String| l@) =~= spec_proc_tick_lines(samples@));
    }
    lines
}

/// What one mount-domain tick emits: nothing when the mount table itself
/// could not be read (the tick's rows are skipped whole) and nothing for
/// an empty table, else a fresh header line followed by one line per
/// mount, in table order.
pub open spec fn spec_mount_tick_lines(mounts: Option<Seq<MountInfo>>) -> Seq<Seq<char>> {
    match mounts {
        Some(ms) => if ms.len() == 0 {
            Seq::empty()
        } else {
            seq![mount_header_line()] + ms.map_values(|m: MountInfo| mount_row_line(m))
        },
        None => Seq::empty(),
    }
}

/// One mount-domain tick, per `spec_mount_tick_lines`. `None` means the
/// mount-table enumeration itself failed.
pub fn mount_tick(mounts: Option<&Vec<MountInfo>>) -> (lines: Vec<String>)
    ensures
        lines@.map_values(|l: String| l@) == spec_mount_tick_lines(
            match mounts {
                Some(ms) => Some(ms@),
                None => None,
            },
        ),
{
    let mut lines: Vec<String> = Vec::new();
    let ms = match mounts {
        Some(ms) => ms,
        None => {
            proof {
                assert(lines@.map_values(|l: String| l@) =~= Seq::<Seq<char>>::empty());
            }
            return lines;
        },
    };
    if ms.len() == 0 {
        proof {
            assert(lines@.map_values(|l: String| l@) =~= Seq::<Seq<char>>::empty());
        }
        return lines;
    }
    lines.push(csv_encode_line(&mount_header()));
    let mut i: usize = 0;
    while i < ms.len()
        invariant
            0 <= i <= ms.len(),
            ms.len() > 0,
            lines@.map_values(|l: String| l@) =~= seq![mount_header_line()] + ms@.take(
                i as int,
            ).map_values(|m: MountInfo| mount_row_line(m)),
        decreases ms.len() - i,
    {
        let row = ms[i].row();
        let line = csv_encode_line(&row);
        let ghost prev = lines@;
        lines.push(line);
        proof {
            assert(lines@.map_values(|l: String| l@) =~= prev.map_values(|l: String| l@).push(
                mount_row_line(ms@[i as int]),
            ));
            assert(ms@.take(i + 1 as int).map_values(|m: MountInfo| mount_row_line(m))
                =~= ms@.take(i as int).map_values(|m: MountInfo| mount_row_line(m)).push(
                mount_row_line(ms@[i as int]),
            ));
            assert(lines@.map_values(|l: String| l@) =~= seq![mount_header_line()] + ms@.take(
                i + 1 as int,
            ).map_values(|m: MountInfo| mount_row_line(m)));
        }
        i = i + 1;
    }
    proof {
        assert(ms@.take(ms.len() as int) =~= ms@);
        assert(lines@.map_values(|l: String| l@) =~= spec_mount_tick_lines(Some(ms@)));
    }
    lines
}

/// The lines a whole host-domain run emits: the ticks' lines in order,
/// with the loop state threaded from one tick to the next.
pub open spec fn sys_run_lines(st: SysLoopState, samples: Seq<SysInfo>) -> Seq<Seq<char>>
    decreases samples.len(),
{
    if samples.len() == 0 {
        Seq::empty()
    } else {
        spec_sys_tick_lines(st, samples[0]) + sys_run_lines(
            SysLoopState { header_written: true },
            samples.drop_first(),
        )
    }
}

/// Once the header is written, a run emits exactly one line per sample
/// and no further header line.
proof fn lemma_sys_run_after_header(samples: Seq<SysInfo>)
    ensures
        sys_run_lines(SysLoopState { header_written: true }, samples).len() == samples.len(),
        forall|i: int|
            0 <= i < samples.len() ==> sys_run_lines(
                SysLoopState { header_written: true },
                samples,
            )[i] == sys_row_line(samples[i]),
    decreases samples.len(),
{
    if samples.len() > 0 {
        lemma_sys_run_after_header(samples.drop_first());
    }
}

/// Header emission law of the host domain: across any whole run of one or
/// more ticks starting in the fresh loop state, the header line is
/// emitted exactly once, as the very first line, and every later line is
/// the row line of the corresponding sample in order.
pub proof fn lemma_sys_header_once(samples: Seq<SysInfo>)
    requires
        samples.len() >= 1,
    ensures
        sys_run_lines(SysLoopState { header_written: false }, samples).len() == samples.len() + 1,
        sys_run_lines(SysLoopState { header_written: false }, samples)[0] == sys_header_line(),
        forall|i: int|
            1 <= i < samples.len() + 1 ==> sys_run_lines(
                SysLoopState { header_written: false },
                samples,
            )[i] == sys_row_line(samples[i - 1]),
{
    lemma_sys_run_after_header(samples.drop_first());
    let run = sys_run_lines(SysLoopState { header_written: false }, samples);
    assert(run =~= seq![sys_header_line(), sys_row_line(samples[0])] + sys_run_lines(
        SysLoopState { header_written: true },
        samples.drop_first(),
    ));
}

/// Fault-tolerance law of the host domain: in a sample built from one
/// tick's readings, the four memory columns are present exactly when the
/// memory read succeeded and the three load columns exactly when the load
/// read succeeded, each group failing alone; the label is always present
/// and the timestamp is present whenever the clock read succeeded. An
/// absent reading renders as the empty column, never as a zero.
pub proof fn lemma_sys_group_absence(
    id: String,
    mem: Option<crate::records::MemStats>,
    load: Option<crate::records::LoadAvgText>,
    time_ms: Option<u128>,
)
    ensures
        ({
            let r = crate::records::sys_sample(id, mem, load, time_ms);
            &&& r.id == id
            &&& r.time_ms == time_ms
            &&& (r.mem_total is Some <==> mem is Some)
            &&& (r.mem_free is Some <==> mem is Some)
            &&& (r.mem_buffers is Some <==> mem is Some)
            &&& (r.mem_cached is Some <==> mem is Some)
            &&& (r.load_avg_1 is Some <==> load is Some)
            &&& (r.load_avg_5 is Some <==> load is Some)
            &&& (r.load_avg_15 is Some <==> load is Some)
            &&& (mem is None ==> forall|j: int|
                2 <= j <= 5 ==> spec_sys_row(r)[j] == Seq::<char>::empty())
            &&& (load is None ==> forall|j: int|
                6 <= j <= 8 ==> spec_sys_row(r)[j] == Seq::<char>::empty())
            &&& spec_sys_row(r)[0] == id@
        }),
{
}

/// Determinism law of the host domain: two samples built from identical
/// readings, differing at most in their timestamp, render to rows that
/// agree in every column but the timestamp column (index 1).
pub proof fn lemma_sys_row_time_independent(a: SysInfo, b: SysInfo)
    requires
        a.id == b.id,
        a.mem_total == b.mem_total,
        a.mem_free == b.mem_free,
        a.mem_buffers == b.mem_buffers,
        a.mem_cached == b.mem_cached,
        a.load_avg_1 == b.load_avg_1,
        a.load_avg_5 == b.load_avg_5,
        a.load_avg_15 == b.load_avg_15,
    ensures
        spec_sys_row(a).len() == spec_sys_row(b).len(),
        forall|j: int| 0 <= j < spec_sys_row(a).len() && j != 1 ==> spec_sys_row(a)[j]
            == spec_sys_row(b)[j],
{
}

/// Determinism law of the process domain: two samples built from
/// identical readings, differing at most in their timestamp, render to
/// rows that agree in every column but the timestamp column (index 0).
pub proof fn lemma_proc_row_time_independent(a: ProcInfo, b: ProcInfo)
    requires
        a.pid == b.pid,
        a.owner == b.owner,
        a.open_fd_count == b.open_fd_count,
        a.num_threads == b.num_threads,
        a.starttime == b.starttime,
        a.utime == b.utime,
        a.stime == b.stime,
        a.cmdline == b.cmdline,
    ensures
        spec_proc_row(a).len() == spec_proc_row(b).len(),
        forall|j: int| 0 <= j < spec_proc_row(a).len() && j != 0 ==> spec_proc_row(a)[j]
            == spec_proc_row(b)[j],
{
}

/// Determinism law of the mount domain: two samples built from identical
/// readings, differing at most in their timestamp, render to rows that
/// agree in every column but the timestamp column (index 0).
pub proof fn lemma_mount_row_time_independent(a: MountInfo, b: MountInfo)
    requires
        a.source == b.source,
        a.dest == b.dest,
        a.fstype == b.fstype,
        a.options == b.options,
        a.dump == b.dump,
        a.pass == b.pass,
        a.used == b.used,
        a.available == b.available,
        a.total == b.total,
        a.use_pc == b.use_pc,
    ensures
        spec_mount_row(a).len() == spec_mount_row(b).len(),
        forall|j: int| 0 <= j < spec_mount_row(a).len() && j != 0 ==> spec_mount_row(a)[j]
            == spec_mount_row(b)[j],
{
}

} // verus!
