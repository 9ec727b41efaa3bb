use vstd::prelude::*;
use crate::metrics::cpu_text;
use crate::snapshot::{ProcessInfo, SystemSnapshot};
use crate::text::{div_round, fixed_point, push_fixed_point, round_div};

verus! {

/// Bytes in one mebibyte.
pub const MIB: u64 = 1048576;

/// The metric a ranking orders by.
#[derive(Clone, Copy, Debug, PartialEq, Eq, Structural)]
pub enum RankBy {
    Cpu,
    Memory,
}

/// The value of a process under a metric.
pub open spec fn metric(p: ProcessInfo, by: RankBy) -> u64 {
    match by {
        RankBy::Cpu => p.cpu_q32,
        RankBy::Memory => p.memory_bytes,
    }
}

/// Memory in whole mebibytes, rounded ties to even, followed by " MB".
pub open spec fn mb_text(bytes: nat) -> Seq<char> {
    fixed_point(div_round(bytes, MIB as nat), 0) + " MB"@
}

/// `sel` is a top-`n` ranking of `all` by `by`: it holds `min(n, |all|)` of
/// the processes of `all`, in descending order of the metric, and no process
/// left out ranks above the last one taken.
pub open spec fn is_top_ranking(
    sel: Seq<ProcessInfo>,
    all: Seq<ProcessInfo>,
    n: nat,
    by: RankBy,
) -> bool {
    &&& sel.len() == if n < all.len() { n } else { all.len() }
    &&& sel.to_multiset().subset_of(all.to_multiset())
    &&& forall|i: int, j: int|
        0 <= i < j < sel.len() ==> metric(sel[i], by) >= metric(sel[j], by)
    &&& sel.len() > 0 ==> forall|x: ProcessInfo|
        #[trigger] all.to_multiset().sub(sel.to_multiset()).count(x) > 0
            ==> metric(x, by) <= metric(sel.last(), by)
}

/// One row of a ranking table, with its display texts.
#[derive(Debug)]
pub struct ProcRow {
    pub pid: u32,
    pub name: String,
    pub cpu_q32: u64,
    pub memory_bytes: u64,
    pub cpu_text: String,
    pub mem_text: String,
}

impl ProcRow {
    /// The process a row was built from.
    pub open spec fn info(self) -> ProcessInfo {
        ProcessInfo {
            pid: self.pid,
            name: self.name,
            cpu_q32: self.cpu_q32,
            memory_bytes: self.memory_bytes,
        }
    }

    /// The row's texts are those of its values.
    pub open spec fn texts_match(self) -> bool {
        &&& self.cpu_text@ == cpu_text(self.cpu_q32 as nat)
        &&& self.mem_text@ == mb_text(self.memory_bytes as nat)
    }
}

/// Memory in whole mebibytes, as in "100 MB".
pub fn format_mb(bytes: u64) -> (r: String)
    ensures
        r@ == mb_text(bytes as nat),
{
    let mut s = String::new();
    push_fixed_point(&mut s, round_div(bytes as u128, MIB as u128), 0);
    s.append(" MB");
    s
}

/// Builds the display row of a process.
pub fn proc_row_from(p: &ProcessInfo) -> (r: ProcRow)
    ensures
        r.info() == *p,
        r.texts_match(),
{
    ProcRow {
        pid: p.pid,
        name: p.name.clone(),
        cpu_q32: p.cpu_q32,
        memory_bytes: p.memory_bytes,
        cpu_text: crate::metrics::format_cpu(p.cpu_q32),
        mem_text: format_mb(p.memory_bytes),
    }
}

fn metric_of(p: &ProcessInfo, by: RankBy) -> (r: u64)
    ensures
        r == metric(*p, by),
{
    match by {
        RankBy::Cpu => p.cpu_q32,
        RankBy::Memory => p.memory_bytes,
    }
}

/// Index of a process with the largest metric.
fn index_of_max(v: &Vec<ProcessInfo>, by: RankBy) -> (k: usize)
    requires
        v.len() > 0,
    ensures
        k < v.len(),
        forall|i: int| 0 <= i < v.len() ==> metric(v@[i], by) <= metric(v@[k as int], by),
{
    let mut k: usize = 0;
    let mut i: usize = 1;
    while i < v.len()
        invariant
            1 <= i <= v.len(),
            k < i,
            forall|j: int| 0 <= j < i ==> metric(v@[j], by) <= metric(v@[k as int], by),
        decreases v.len() - i,
    {
        if metric_of(&v[i], by) > metric_of(&v[k], by) {
            k = i;
        }
        i = i + 1;
    }
    k
}

/// The `n` processes that rank highest by `by`, highest first; ties are
/// taken in no promised order.
pub fn select_top(all: &Vec<ProcessInfo>, n: usize, by: RankBy) -> (r: Vec<ProcessInfo>)
    ensures
        is_top_ranking(r@, all@, n as nat, by),
{
    broadcast use vstd::seq_lib::group_to_multiset_ensures;
    broadcast use vstd::multiset::group_multiset_axioms;

    let mut rest: Vec<ProcessInfo> = Vec::new();
    let mut i: usize = 0;
    while i < all.len()
        invariant
            i <= all.len(),
            rest@ == all@.take(i as int),
        decreases all.len() - i,
    {
        rest.push(all[i].duplicate());
        i = i + 1;
        assert(rest@ =~= all@.take(i as int));
    }
    assert(rest@ =~= all@);

    let mut out: Vec<ProcessInfo> = Vec::new();
    while out.len() < n && rest.len() > 0
        invariant
            out.len() <= n,
            out.len() + rest.len() == all.len(),
            out@.to_multiset().add(rest@.to_multiset()) == all@.to_multiset(),
            forall|a: int, b: int|
                0 <= a < b < out.len() ==> metric(out@[a], by) >= metric(out@[b], by),
            out.len() > 0 ==> forall|j: int|
                0 <= j < rest.len() ==> metric(rest@[j], by) <= metric(out@.last(), by),
        decreases rest.len(),
    {
        let k = index_of_max(&rest, by);
        let ghost old_rest = rest@;
        let ghost old_out = out@;
        let x = rest.remove(k);
        proof {
            old_rest.to_multiset_ensures();
            old_out.to_multiset_ensures();
        }
        assert(rest@.to_multiset() =~= old_rest.to_multiset().remove(x));
        out.push(x);
        assert(out@ == old_out.push(x));
        assert(out@.to_multiset() =~= old_out.to_multiset().insert(x));
        assert(out@.to_multiset().add(rest@.to_multiset()) =~= all@.to_multiset());
        assert forall|j: int| 0 <= j < rest.len() implies metric(rest@[j], by) <= metric(out@.last(), by) by {
            assert(rest@[j] == old_rest.remove(k as int)[j]);
        }
    }
    proof {
        let ms = all@.to_multiset().sub(out@.to_multiset());
        assert(ms =~= rest@.to_multiset());
        assert(out@.to_multiset().subset_of(all@.to_multiset()));
    }
    out
}

/// The processes that a sequence of rows was built from.
pub open spec fn infos(rows: Seq<ProcRow>) -> Seq<ProcessInfo> {
    rows.map_values(|r: ProcRow| r.info())
}

/// The display rows of the given processes, in the same order.
pub fn rows_from(sel: &Vec<ProcessInfo>) -> (r: Vec<ProcRow>)
    ensures
        infos(r@) == sel@,
        forall|i: int| 0 <= i < r.len() ==> (#[trigger] r@[i]).texts_match(),
{
    let mut rows: Vec<ProcRow> = Vec::new();
    let mut i: usize = 0;
    while i < sel.len()
        invariant
            i <= sel.len(),
            infos(rows@) == sel@.take(i as int),
            forall|j: int| 0 <= j < rows.len() ==> (#[trigger] rows@[j]).texts_match(),
        decreases sel.len() - i,
    {
        let row = proc_row_from(&sel[i]);
        let ghost before = rows@;
        rows.push(row);
        i = i + 1;
        assert(infos(rows@) =~= infos(before).push(row.info()));
        assert(infos(rows@) =~= sel@.take(i as int));
    }
    assert(sel@.take(sel.len() as int) =~= sel@);
    rows
}

/// The top `n` rows of the process table by `by`, highest first.
pub fn top_by(processes: &Vec<ProcessInfo>, n: usize, by: RankBy) -> (r: Vec<ProcRow>)
    ensures
        is_top_ranking(infos(r@), processes@, n as nat, by),
        forall|i: int| 0 <= i < r.len() ==> (#[trigger] r@[i]).texts_match(),
{
    let sel = select_top(processes, n, by);
    rows_from(&sel)
}

/// The top `n` processes of a snapshot by CPU usage, highest first.
pub fn top_by_cpu(snapshot: &SystemSnapshot, n: usize) -> (r: Vec<ProcRow>)
    ensures
        is_top_ranking(infos(r@), snapshot.processes@, n as nat, RankBy::Cpu),
        forall|i: int| 0 <= i < r.len() ==> (#[trigger] r@[i]).texts_match(),
{
    top_by(&snapshot.processes, n, RankBy::Cpu)
}

/// The top `n` processes of a snapshot by resident memory, highest first.
pub fn top_by_memory(snapshot: &SystemSnapshot, n: usize) -> (r: Vec<ProcRow>)
    ensures
        is_top_ranking(infos(r@), snapshot.processes@, n as nat, RankBy::Memory),
        forall|i: int| 0 <= i < r.len() ==> (#[trigger] r@[i]).texts_match(),
{
    top_by(&snapshot.processes, n, RankBy::Memory)
}

/// Both rankings of one snapshot: by CPU usage and by memory.
pub fn top_processes(snapshot: &SystemSnapshot, n: usize) -> (r: (Vec<ProcRow>, Vec<ProcRow>))
    ensures
        is_top_ranking(infos(r.0@), snapshot.processes@, n as nat, RankBy::Cpu),
        is_top_ranking(infos(r.1@), snapshot.processes@, n as nat, RankBy::Memory),
        forall|i: int| 0 <= i < r.0.len() ==> (#[trigger] r.0@[i]).texts_match(),
        forall|i: int| 0 <= i < r.1.len() ==> (#[trigger] r.1@[i]).texts_match(),
{
    (top_by_cpu(snapshot, n), top_by_memory(snapshot, n))
}

/// A ranking holds at most `n` rows, and of any two adjacent rows the
/// earlier one's metric is at least the later one's.
pub proof fn lemma_ranking_bounded_descending(
    rows: Seq<ProcRow>,
    all: Seq<ProcessInfo>,
    n: nat,
    by: RankBy,
)
    requires
        is_top_ranking(infos(rows), all, n, by),
    ensures
        rows.len() <= n,
        forall|i: int|
            0 <= i < rows.len() - 1 ==> metric((#[trigger] rows[i]).info(), by) >= metric(
                rows[i + 1].info(),
                by,
            ),
{
    assert forall|i: int| 0 <= i < rows.len() - 1 implies metric((#[trigger] rows[i]).info(), by)
        >= metric(rows[i + 1].info(), by) by {
        assert(infos(rows)[i] == rows[i].info());
        assert(infos(rows)[i + 1] == rows[i + 1].info());
    }
}

} // verus!
