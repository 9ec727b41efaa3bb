use devdash::metrics::{
    format_cpu, format_memory, format_swap, gib_hundredths, percent_tenths, uptime_secs,
};
use devdash::platform::str_equal;
use devdash::ranking::{format_mb, proc_row_from, select_top};
use devdash::text::push_fixed_point;
use devdash::{
    aggregate, port_rows, top_by_cpu, top_by_memory, top_processes, Platform, PortRow,
    ProcessInfo, RankBy, SystemSnapshot,
};

const MB: u64 = 1048576;

/// A whole percentage in the snapshot's CPU unit (percent times 2^32).
fn pct(whole: u64) -> u64 {
    whole << 32
}

fn proc(pid: u32, name: &str, cpu_q32: u64, memory_bytes: u64) -> ProcessInfo {
    ProcessInfo { pid, name: name.to_string(), cpu_q32, memory_bytes }
}

fn three_process_snapshot() -> SystemSnapshot {
    let mut s = SystemSnapshot::new();
    s.refresh_processes(vec![
        proc(1, "alpha", pct(90), 100 * MB),
        proc(2, "beta", pct(10), 500 * MB),
        proc(3, "gamma", pct(50), 50 * MB),
    ]);
    s
}

fn pids(rows: &[devdash::ProcRow]) -> Vec<u32> {
    rows.iter().map(|r| r.pid).collect()
}

#[test]
fn platform_labels() {
    assert_eq!(Platform::Mac.as_str(), "macOS");
    assert_eq!(Platform::Windows.as_str(), "Windows");
    assert_eq!(Platform::Linux.as_str(), "Linux");
    assert_eq!(Platform::Unknown.as_str(), "Unknown");
}

#[test]
fn platform_detect_known_and_unknown() {
    assert_eq!(Platform::detect("macos"), Platform::Mac);
    assert_eq!(Platform::detect("windows"), Platform::Windows);
    assert_eq!(Platform::detect("linux"), Platform::Linux);
    assert_eq!(Platform::detect("freebsd"), Platform::Unknown);
    assert_eq!(Platform::detect(""), Platform::Unknown);
    assert_eq!(Platform::detect("Linux"), Platform::Unknown);
}

#[test]
fn str_equal_compares_characters() {
    assert!(str_equal("abc", "abc"));
    assert!(!str_equal("abc", "abd"));
    assert!(!str_equal("abc", "ab"));
    assert!(str_equal("", ""));
}

#[test]
fn percent_of_zero_total_is_zero() {
    assert_eq!(percent_tenths(0, 0), 0);
    assert_eq!(percent_tenths(12345, 0), 0);
    assert_eq!(percent_tenths(u64::MAX, 0), 0);
    assert_eq!(format_memory(0, 0), "0.00 / 0.00 GB (0.0%)");
    assert_eq!(format_memory(1 << 30, 0), "1.00 / 0.00 GB (0.0%)");
}

#[test]
fn percent_rounds_to_tenths() {
    assert_eq!(percent_tenths(1, 2), 500);
    assert_eq!(percent_tenths(1, 3), 333);
    assert_eq!(percent_tenths(2, 3), 667);
    assert_eq!(percent_tenths(3, 3), 1000);
}

#[test]
fn percent_ties_go_to_even() {
    assert_eq!(percent_tenths(1, 16), 62);
    assert_eq!(percent_tenths(3, 16), 188);
    assert_eq!(format_memory(1 << 26, 1 << 30), "0.06 / 1.00 GB (6.2%)");
}

#[test]
fn memory_text_two_of_four_gib() {
    assert_eq!(format_memory(2147483648, 4294967296), "2.00 / 4.00 GB (50.0%)");
}

#[test]
fn memory_text_rounding() {
    assert_eq!(gib_hundredths(1 << 30), 100);
    assert_eq!(gib_hundredths(0), 0);
    assert_eq!(gib_hundredths(u64::MAX), 1717986918400);
    assert_eq!(format_memory(536870912, 17179869184), "0.50 / 16.00 GB (3.1%)");
}

#[test]
fn gib_ties_go_to_even() {
    assert_eq!(gib_hundredths(1 << 27), 12);
    assert_eq!(gib_hundredths(3 << 27), 38);
    assert_eq!(format_memory(1 << 27, 1 << 30), "0.12 / 1.00 GB (12.5%)");
    assert_eq!(format_swap(1 << 27, 0), "0.12 / 0.00 GB");
}

#[test]
fn swap_text_has_no_percentage() {
    assert_eq!(format_swap(536870912, 2147483648), "0.50 / 2.00 GB");
    assert_eq!(format_swap(0, 0), "0.00 / 0.00 GB");
}

#[test]
fn cpu_text_one_decimal() {
    assert_eq!(format_cpu(0), "0.0%");
    assert_eq!(format_cpu(99 << 29), "12.4%");
    assert_eq!(format_cpu(395 << 27), "12.3%");
    assert_eq!(format_cpu(pct(250)), "250.0%");
    assert_eq!(format_cpu(1), "0.0%");
}

#[test]
fn cpu_ties_go_to_even() {
    assert_eq!(format_cpu(pct(1) / 4), "0.2%");
    assert_eq!(format_cpu(pct(3) / 4), "0.8%");
    assert_eq!(format_cpu(49 << 30), "12.2%");
}

#[test]
fn fixed_point_places() {
    let mut s = String::new();
    push_fixed_point(&mut s, 7, 2);
    assert_eq!(s, "0.07");
    let mut s = String::from("x=");
    push_fixed_point(&mut s, 1234, 0);
    assert_eq!(s, "x=1234");
    let mut s = String::new();
    push_fixed_point(&mut s, 1005, 3);
    assert_eq!(s, "1.005");
    let mut s = String::new();
    push_fixed_point(&mut s, 123, 5);
    assert_eq!(s, "0.00123");
    let mut s = String::new();
    push_fixed_point(&mut s, u128::MAX, 40);
    assert_eq!(s, format!("0.0{}", u128::MAX));
}

#[test]
fn mb_text_rounds_to_whole_mebibytes() {
    assert_eq!(format_mb(100 * MB), "100 MB");
    assert_eq!(format_mb(0), "0 MB");
    assert_eq!(format_mb(MB / 2), "0 MB");
    assert_eq!(format_mb(MB / 2 + 1), "1 MB");
    assert_eq!(format_mb(3 * MB / 2), "2 MB");
    assert_eq!(format_mb(5 * MB / 2), "2 MB");
}

#[test]
fn uptime_is_whole_seconds() {
    assert_eq!(uptime_secs(0, 0), 0);
    assert_eq!(uptime_secs(1000, 2999), 1);
    assert_eq!(uptime_secs(1000, 3000), 2);
    assert_eq!(uptime_secs(5000, 1000), 0);
}

#[test]
fn uptime_never_decreases() {
    let start = 123;
    let mut last = 0;
    for now in [0u64, 100, 1122, 1123, 5000, 5000, 90_000] {
        let u = uptime_secs(start, now);
        assert!(u >= last);
        last = u;
    }
}

#[test]
fn aggregate_reads_one_snapshot() {
    let mut s = SystemSnapshot::new();
    s.refresh_cpu_and_memory(85 << 31, 4294967296, 2147483648, 0, 0);
    let v = aggregate(&s, 42);
    assert_eq!(v.cpu_percent, "42.5%");
    assert_eq!(v.mem_text, "2.00 / 4.00 GB (50.0%)");
    assert_eq!(v.swap_text, "0.00 / 0.00 GB");
    assert_eq!(v.uptime_secs, 42);
    assert!(!v.swap_used_nonzero);

    s.refresh_cpu_and_memory(0, 0, 0, 2147483648, 1);
    let v = aggregate(&s, 43);
    assert_eq!(v.mem_text, "0.00 / 0.00 GB (0.0%)");
    assert!(v.swap_used_nonzero);
}

#[test]
fn refresh_cpu_keeps_processes() {
    let mut s = three_process_snapshot();
    s.refresh_cpu_and_memory(100, 200, 300, 400, 500);
    assert_eq!(s.processes.len(), 3);
    assert_eq!(s.total_memory, 200);
    assert_eq!(s.used_swap, 500);
}

#[test]
fn refresh_processes_keeps_first_of_each_pid() {
    let mut s = SystemSnapshot::new();
    s.refresh_cpu_and_memory(1, 2, 3, 4, 5);
    s.refresh_processes(vec![proc(7, "a", 1, 1), proc(8, "b", 2, 2), proc(7, "c", 3, 3)]);
    assert_eq!(s.processes.len(), 2);
    assert_eq!(s.processes[0].name, "a");
    assert_eq!(s.processes[1].name, "b");
    assert_eq!(s.cpu_q32, 1);
    s.refresh_processes(vec![]);
    assert!(s.processes.is_empty());
}

#[test]
fn top_two_of_three_processes() {
    let s = three_process_snapshot();
    assert_eq!(pids(&top_by_cpu(&s, 2)), vec![1, 3]);
    assert_eq!(pids(&top_by_memory(&s, 2)), vec![2, 1]);
}

#[test]
fn rankings_are_bounded_and_descending() {
    let mut s = SystemSnapshot::new();
    let mut list = Vec::new();
    for i in 0..40u32 {
        let cpu = ((i * 7919) % 101) as u64 * 37;
        let mem = ((i * 104729) % 97) as u64 * MB;
        list.push(proc(i + 1, "p", cpu, mem));
    }
    s.refresh_processes(list);
    for n in [0usize, 1, 5, 39, 40, 100] {
        let c = top_by_cpu(&s, n);
        assert_eq!(c.len(), n.min(40));
        for w in c.windows(2) {
            assert!(w[0].cpu_q32 >= w[1].cpu_q32);
        }
        let m = top_by_memory(&s, n);
        assert_eq!(m.len(), n.min(40));
        for w in m.windows(2) {
            assert!(w[0].memory_bytes >= w[1].memory_bytes);
        }
    }
}

#[test]
fn ranking_of_empty_table() {
    let s = SystemSnapshot::new();
    assert!(top_by_cpu(&s, 10).is_empty());
    assert!(top_by_memory(&s, 10).is_empty());
}

#[test]
fn ranking_with_equal_metrics_keeps_every_row() {
    let all = vec![proc(1, "a", 50, 1), proc(2, "b", 50, 1), proc(3, "c", 50, 1)];
    let top = select_top(&all, 3, RankBy::Cpu);
    let mut got: Vec<u32> = top.iter().map(|p| p.pid).collect();
    got.sort();
    assert_eq!(got, vec![1, 2, 3]);
}

#[test]
fn rows_carry_display_texts() {
    let row = proc_row_from(&proc(9, "server", 49 << 30, 100 * MB));
    assert_eq!(row.pid, 9);
    assert_eq!(row.name, "server");
    assert_eq!(row.cpu_text, "12.2%");
    assert_eq!(row.mem_text, "100 MB");
    let (c, m) = top_processes(&three_process_snapshot(), 1);
    assert_eq!(c[0].cpu_text, "90.0%");
    assert_eq!(m[0].mem_text, "500 MB");
}

#[test]
fn port_rows_keep_watched_order() {
    let rows = port_rows(&vec![3000, 8080, 22], &vec![false, true, false]);
    assert_eq!(
        rows,
        vec![
            PortRow { port: 3000, open: false },
            PortRow { port: 8080, open: true },
            PortRow { port: 22, open: false },
        ]
    );
    assert!(port_rows(&vec![], &vec![]).is_empty());
    let short = port_rows(&vec![3000, 8080], &vec![true]);
    assert_eq!(short, vec![PortRow { port: 3000, open: true }, PortRow { port: 8080, open: false }]);
}
