//! Host-state sampling and ranking engine of a local monitoring dashboard.
//!
//! The library holds the logic: platform labels, fixed-point text for
//! percentages and byte quantities, the snapshot of host state and its
//! refresh operations, the metrics view derived from one snapshot, the
//! per-process rankings and the ordered port statuses. Reading the host and
//! probing sockets happen in the caller, which hands plain values in.
pub mod metrics;
pub mod platform;
pub mod ports;
pub mod ranking;
pub mod snapshot;
pub mod text;

pub use metrics::{aggregate, MetricsView};
pub use platform::Platform;
pub use ports::{port_rows, PortRow};
pub use ranking::{top_by_cpu, top_by_memory, top_processes, ProcRow, RankBy};
pub use snapshot::{ProcessInfo, SystemSnapshot};
