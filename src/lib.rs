//! Emulation core of a virtio-MMIO device for a type-1 hypervisor.
//!
//! - `regs`: the 32-bit register bank and the device kinds.
//! - `mmio`: one device: status machine, feature negotiation, and the
//!   decoder of trapped accesses, each stated against a state-machine spec.
//! - `queue`: split virtqueues: cursors, ring views, the descriptor-chain
//!   reader and used-ring publication.
//! - `blk`: the block binding: configuration space, request decoding and the
//!   notify handler that drains a queue through a `BlkBackend`.
//! - `ram`: guest memory reached through a host window, little-endian, and
//!   the guest-physical to host mapping (0 denotes "not mapped").
//! - `registry`: the device table and the trap entry.
//!
//! Guest memory is modelled as a byte window that the device reads and
//! writes in program order: a used slot is written before the index that
//! publishes it. On real hardware the caller pairs that store order with a
//! release barrier.

pub mod blk;
pub mod layout;
pub mod mmio;
pub mod queue;
pub mod ram;
pub mod regs;
pub mod registry;
