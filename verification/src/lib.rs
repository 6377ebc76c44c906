//! Periodic system-telemetry collection: host memory/load, per-process
//! resource usage, and mounted-filesystem capacity, rendered as
//! comma-separated rows of self-describing text.
//!
//! The crate holds the sampling logic itself: record construction with
//! fault-tolerant absent/sentinel fields, filesystem-usage arithmetic,
//! decimal and CSV formatting, and the per-domain tick state machines.
//! Reading `/proc`, the `statvfs` call, argument handling, the clock and
//! the output stream live with the binary that drives these loops.

mod csvline;
mod numfmt;
mod options;
mod records;
mod rows;
mod strutil;
mod ticks;
mod usage;

pub use csvline::{
    csv_encode_field, csv_encode_line, csv_field, csv_fields_joined, csv_line, escaped_chars,
    is_csv_special, needs_quoting,
};
pub use numfmt::{dec_str, dec_str_signed, digit_char, i64_to_dec, u128_to_dec, u64_to_dec};
pub use options::{
    all_dec_digits, dec_val, default_id_text, digit_val, effective_id, effective_interval_secs,
    interval_is_invalid, is_dec_digit, is_u64_decimal, parse_interval_secs, parse_u64_dec,
    select_options, u64_decimal_val, unsigned_digits, AppOptions, Domain, DEFAULT_INTERVAL_SECS,
};
pub use records::{
    cmdline_text, fd_count_or_sentinel, opt_string_views, sys_sample, LoadAvgText, MemStats,
    MountInfo, ProcInfo, SwapInfo, SysInfo,
};
pub use rows::{
    mount_header, mount_header_fields, opt_string_text, opt_u128_text, opt_u64_text, proc_header,
    proc_header_fields, spec_mount_row, spec_proc_row, spec_sys_row, sys_header, sys_header_fields,
};
pub use strutil::{join_with, joined_with};
pub use ticks::{
    lemma_mount_row_time_independent, lemma_proc_row_time_independent, lemma_sys_group_absence,
    lemma_sys_header_once,
    lemma_sys_row_time_independent, mount_header_line, mount_row_line, mount_tick,
    proc_header_line, proc_row_line, proc_tick, spec_mount_tick_lines, spec_proc_tick_lines,
    spec_sys_tick_lines, sys_header_line, sys_row_line, sys_run_lines, sys_tick, SysLoopState,
};
pub use usage::{fs_usage, kilobytes, spec_fs_usage, usage_percent, VfsStats};
