use vstd::prelude::*;

verus! {

/// One operating-system process as of the last refresh.
///
/// CPU usage is held as percent times 2^32 (it may exceed 100% on several
/// cores); resident memory is held in bytes.
#[derive(Debug)]
pub struct ProcessInfo {
    pub pid: u32,
    pub name: String,
    pub cpu_q32: u64,
    pub memory_bytes: u64,
}

impl ProcessInfo {
    /// A field-by-field copy.
    pub fn duplicate(&self) -> (r: ProcessInfo)
        ensures
            r == *self,
    {
        ProcessInfo {
            pid: self.pid,
            name: self.name.clone(),
            cpu_q32: self.cpu_q32,
            memory_bytes: self.memory_bytes,
        }
    }
}

/// Host state as of the last refresh: global CPU usage as percent times
/// 2^32, memory and swap in bytes, and the process table.
#[derive(Debug)]
pub struct SystemSnapshot {
    pub cpu_q32: u64,
    pub total_memory: u64,
    pub used_memory: u64,
    pub total_swap: u64,
    pub used_swap: u64,
    pub processes: Vec<ProcessInfo>,
}

/// Whether a process table holds a process with the given pid.
pub open spec fn has_pid(table: Seq<ProcessInfo>, pid: u32) -> bool {
    exists|i: int| 0 <= i < table.len() && (#[trigger] table[i]).pid == pid
}

/// The process table kept from an enumeration: for each pid, its first
/// entry, in the order of first appearance.
pub open spec fn unique_by_pid(list: Seq<ProcessInfo>) -> Seq<ProcessInfo>
    decreases list.len(),
{
    if list.len() == 0 {
        Seq::empty()
    } else {
        let kept = unique_by_pid(list.drop_last());
        if has_pid(kept, list.last().pid) {
            kept
        } else {
            kept.push(list.last())
        }
    }
}

/// No two entries of the table share a pid.
pub open spec fn pids_unique(table: Seq<ProcessInfo>) -> bool {
    forall|i: int, j: int|
        0 <= i < table.len() && 0 <= j < table.len() && i != j ==> table[i].pid != table[j].pid
}

proof fn lemma_unique_by_pid_unique(list: Seq<ProcessInfo>)
    ensures
        pids_unique(unique_by_pid(list)),
    decreases list.len(),
{
    if list.len() > 0 {
        lemma_unique_by_pid_unique(list.drop_last());
    }
}

fn table_has_pid(table: &Vec<ProcessInfo>, pid: u32) -> (r: bool)
    ensures
        r == has_pid(table@, pid),
{
    let mut i: usize = 0;
    while i < table.len()
        invariant
            i <= table.len(),
            forall|j: int| 0 <= j < i ==> (#[trigger] table@[j]).pid != pid,
        decreases table.len() - i,
    {
        if table[i].pid == pid {
            return true;
        }
        i = i + 1;
    }
    false
}

impl SystemSnapshot {
    /// The snapshot is well formed: no two processes share a pid.
    pub open spec fn wf(&self) -> bool {
        pids_unique(self.processes@)
    }

    /// An empty snapshot, before any refresh.
    pub fn new() -> (r: SystemSnapshot)
        ensures
            r.wf(),
            r.cpu_q32 == 0,
            r.total_memory == 0,
            r.used_memory == 0,
            r.total_swap == 0,
            r.used_swap == 0,
            r.processes@.len() == 0,
    {
        SystemSnapshot {
            cpu_q32: 0,
            total_memory: 0,
            used_memory: 0,
            total_swap: 0,
            used_swap: 0,
            processes: Vec::new(),
        }
    }

    /// Records a fresh reading of CPU, memory and swap; the process table is
    /// left as it was.
    pub fn refresh_cpu_and_memory(
        &mut self,
        cpu_q32: u64,
        total_memory: u64,
        used_memory: u64,
        total_swap: u64,
        used_swap: u64,
    )
        ensures
            final(self).cpu_q32 == cpu_q32,
            final(self).total_memory == total_memory,
            final(self).used_memory == used_memory,
            final(self).total_swap == total_swap,
            final(self).used_swap == used_swap,
            final(self).processes == old(self).processes,
    {
        self.cpu_q32 = cpu_q32;
        self.total_memory = total_memory;
        self.used_memory = used_memory;
        self.total_swap = total_swap;
        self.used_swap = used_swap;
    }

    /// Replaces the process table with a fresh enumeration. Processes that
    /// are gone are dropped; a pid listed twice keeps its first entry. The
    /// other readings are left as they were.
    pub fn refresh_processes(&mut self, listed: Vec<ProcessInfo>)
        ensures
            final(self).wf(),
            final(self).processes@ == unique_by_pid(listed@),
            final(self).cpu_q32 == old(self).cpu_q32,
            final(self).total_memory == old(self).total_memory,
            final(self).used_memory == old(self).used_memory,
            final(self).total_swap == old(self).total_swap,
            final(self).used_swap == old(self).used_swap,
    {
        let mut table: Vec<ProcessInfo> = Vec::new();
        let mut rest = listed;
        let ghost all = rest@;
        let mut i: usize = 0;
        let n = rest.len();
        while i < n
            invariant
                n == all.len(),
                i <= n,
                rest@ == all.skip(i as int),
                table@ == unique_by_pid(all.take(i as int)),
            decreases n - i,
        {
            let p = rest.remove(0);
            assert(p == all[i as int]);
            assert(rest@ =~= all.skip(i as int + 1));
            assert(all.take(i as int + 1).drop_last() =~= all.take(i as int));
            if !table_has_pid(&table, p.pid) {
                table.push(p);
            }
            i = i + 1;
        }
        assert(all.take(n as int) =~= all);
        proof { lemma_unique_by_pid_unique(all); }
        self.processes = table;
    }
}

} // verus!
