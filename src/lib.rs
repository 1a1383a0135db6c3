//! Decision layer of a tick-based colony controller: per-agent mode and
//! target selection, harvesting-node allocation and spiral placement of
//! extensions around a spawn. World access stays with the caller, which
//! hands plain snapshots in and carries the decisions out.
pub mod creeps;
pub mod execute;
pub mod geometry;
pub mod harvester_allocator;
pub mod ids;
pub mod memory;
pub mod names;
pub mod placer;
pub mod spawn;
pub mod worker_allocator;
