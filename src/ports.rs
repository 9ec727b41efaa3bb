use vstd::prelude::*;

verus! {

/// Timeout of one liveness probe, in milliseconds.
pub const PROBE_TIMEOUT_MS: u64 = 150;

/// The liveness of one watched port.
#[derive(Clone, Copy, Debug, PartialEq, Eq, Structural)]
pub struct PortRow {
    pub port: u16,
    pub open: bool,
}

/// Whether the probe of the port at index `i` succeeded; a port with no
/// outcome counts as closed, as a failed probe does.
pub open spec fn outcome(open: Seq<bool>, i: int) -> bool {
    i < open.len() && open[i]
}

/// Pairs each watched port with the outcome of its probe, keeping the order
/// of the watched ports whatever order the probes finished in: one row per
/// watched port.
pub fn port_rows(ports: &Vec<u16>, open: &Vec<bool>) -> (r: Vec<PortRow>)
    ensures
        r.len() == ports.len(),
        forall|i: int|
            0 <= i < r.len() ==> #[trigger] r@[i] == (PortRow { port: ports@[i], open: outcome(open@, i) }),
{
    let mut rows: Vec<PortRow> = Vec::with_capacity(ports.len());
    let mut i: usize = 0;
    while i < ports.len()
        invariant
            i <= ports.len(),
            rows.len() == i,
            forall|j: int|
                0 <= j < i ==> #[trigger] rows@[j] == (PortRow { port: ports@[j], open: outcome(open@, j) }),
        decreases ports.len() - i,
    {
        let is_open = i < open.len() && open[i];
        rows.push(PortRow { port: ports[i], open: is_open });
        i = i + 1;
    }
    rows
}

} // verus!
