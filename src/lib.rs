//! Per-core control plane of a type-1 hypervisor: per-core control blocks,
//! their lifecycle, and the activation / deactivation protocol that moves a
//! core between host and hypervisor control.
use vstd::prelude::*;

pub mod arch;
pub mod cell;
pub mod consts;
pub mod error;
pub mod memory;
pub mod percpu;

verus! {

} // verus!
