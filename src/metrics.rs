use vstd::prelude::*;
use crate::snapshot::SystemSnapshot;
use crate::text::{div_round, fixed_point, push_fixed_point, round_div};

verus! {

/// Bytes in one gibibyte.
pub const GIB: u64 = 1073741824;

/// One percent of CPU usage in the fixed-point unit of the snapshot: usage
/// is held as percent times 2^32, which holds an `f32` reading exactly.
pub const CPU_ONE_PERCENT: u64 = 4294967296;

/// `part / total` as a percentage in tenths, rounded ties to even; zero when `total` is zero.
pub open spec fn spec_percent_tenths(part: nat, total: nat) -> nat {
    if total == 0 {
        0
    } else {
        div_round(part * 1000, total)
    }
}

/// A byte count in hundredths of a gibibyte, rounded ties to even.
pub open spec fn spec_gib_hundredths(bytes: nat) -> nat {
    div_round(bytes * 100, GIB as nat)
}

/// A byte count in gibibytes with two decimals.
pub open spec fn gib_text(bytes: nat) -> Seq<char> {
    fixed_point(spec_gib_hundredths(bytes), 2)
}

/// CPU usage (percent times 2^32) with one decimal, rounded ties to even,
/// and a percent sign, as in "12.5%".
pub open spec fn cpu_text(q32: nat) -> Seq<char> {
    fixed_point(div_round(q32 * 10, CPU_ONE_PERCENT as nat), 1) + "%"@
}

/// Memory usage as in "2.00 / 4.00 GB (50.0%)".
pub open spec fn mem_text(used: nat, total: nat) -> Seq<char> {
    gib_text(used) + " / "@ + gib_text(total) + " GB ("@ + fixed_point(
        spec_percent_tenths(used, total),
        1,
    ) + "%)"@
}

/// Swap usage as in "0.50 / 2.00 GB".
pub open spec fn swap_text(used: nat, total: nat) -> Seq<char> {
    gib_text(used) + " / "@ + gib_text(total) + " GB"@
}

/// Whole seconds elapsed from `started_ms` to `now_ms`; zero if the clock
/// reads earlier than the start.
pub open spec fn spec_uptime_secs(started_ms: nat, now_ms: nat) -> nat {
    if now_ms >= started_ms {
        ((now_ms - started_ms) as nat) / 1000
    } else {
        0
    }
}

/// The values rendered in the metrics fragment.
#[derive(Debug)]
pub struct MetricsView {
    pub cpu_percent: String,
    pub mem_text: String,
    pub swap_text: String,
    pub uptime_secs: u64,
    pub swap_used_nonzero: bool,
}

/// `part / total` as a percentage in tenths, rounded ties to even; zero
/// when `total` is zero.
pub fn percent_tenths(part: u64, total: u64) -> (r: u128)
    ensures
        r == spec_percent_tenths(part as nat, total as nat),
        total == 0 ==> r == 0,
{
    if total == 0 {
        0
    } else {
        round_div(part as u128 * 1000, total as u128)
    }
}

/// A byte count in hundredths of a gibibyte, rounded ties to even.
pub fn gib_hundredths(bytes: u64) -> (r: u128)
    ensures
        r == spec_gib_hundredths(bytes as nat),
{
    round_div(bytes as u128 * 100, GIB as u128)
}

/// Whole seconds elapsed between two readings of a millisecond clock.
pub fn uptime_secs(started_ms: u64, now_ms: u64) -> (r: u64)
    ensures
        r == spec_uptime_secs(started_ms as nat, now_ms as nat),
{
    if now_ms >= started_ms {
        (now_ms - started_ms) / 1000
    } else {
        0
    }
}

/// The uptime reported at a later reading of the clock is never smaller
/// than the one reported at an earlier reading.
pub proof fn lemma_uptime_monotonic(started_ms: nat, earlier_ms: nat, later_ms: nat)
    requires
        earlier_ms <= later_ms,
    ensures
        spec_uptime_secs(started_ms, earlier_ms) <= spec_uptime_secs(started_ms, later_ms),
{
    if earlier_ms >= started_ms {
        vstd::arithmetic::div_mod::lemma_div_is_ordered(
            (earlier_ms - started_ms) as int,
            (later_ms - started_ms) as int,
            1000,
        );
    }
}

/// A percentage of a zero total is zero, whatever the part.
pub proof fn lemma_percent_of_zero_total(part: nat)
    ensures
        spec_percent_tenths(part, 0) == 0,
{
}

fn push_gib(s: &mut String, bytes: u64)
    ensures
        final(s)@ == old(s)@ + gib_text(bytes as nat),
{
    push_fixed_point(s, gib_hundredths(bytes), 2);
}

/// The CPU text of a usage given in percent times 2^32.
pub fn format_cpu(q32: u64) -> (r: String)
    ensures
        r@ == cpu_text(q32 as nat),
{
    let mut s = String::new();
    push_fixed_point(&mut s, round_div(q32 as u128 * 10, CPU_ONE_PERCENT as u128), 1);
    s.append("%");
    assert(s@ =~= cpu_text(q32 as nat));
    s
}

/// The memory text: used and total in gibibytes, and the percentage used.
pub fn format_memory(used: u64, total: u64) -> (r: String)
    ensures
        r@ == mem_text(used as nat, total as nat),
{
    let mut s = String::new();
    push_gib(&mut s, used);
    s.append(" / ");
    push_gib(&mut s, total);
    s.append(" GB (");
    push_fixed_point(&mut s, percent_tenths(used, total), 1);
    s.append("%)");
    assert(s@ =~= mem_text(used as nat, total as nat));
    s
}

/// The swap text: used and total in gibibytes.
pub fn format_swap(used: u64, total: u64) -> (r: String)
    ensures
        r@ == swap_text(used as nat, total as nat),
{
    let mut s = String::new();
    push_gib(&mut s, used);
    s.append(" / ");
    push_gib(&mut s, total);
    s.append(" GB");
    assert(s@ =~= swap_text(used as nat, total as nat));
    s
}

/// Derives the metrics view from one snapshot and the uptime in seconds.
/// Every field comes from the same snapshot value.
pub fn aggregate(snapshot: &SystemSnapshot, uptime_secs: u64) -> (r: MetricsView)
    ensures
        r.cpu_percent@ == cpu_text(snapshot.cpu_q32 as nat),
        r.mem_text@ == mem_text(snapshot.used_memory as nat, snapshot.total_memory as nat),
        r.swap_text@ == swap_text(snapshot.used_swap as nat, snapshot.total_swap as nat),
        r.uptime_secs == uptime_secs,
        r.swap_used_nonzero == (snapshot.used_swap > 0),
{
    MetricsView {
        cpu_percent: format_cpu(snapshot.cpu_q32),
        mem_text: format_memory(snapshot.used_memory, snapshot.total_memory),
        swap_text: format_swap(snapshot.used_swap, snapshot.total_swap),
        uptime_secs,
        swap_used_nonzero: snapshot.used_swap > 0,
    }
}

} // verus!
