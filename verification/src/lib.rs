//! Trap handling core of a minimal supervisor-mode RISC-V kernel.
//!
//! The kernel installs one trap handler, enables the timer interrupt and then
//! parks its single hart. This crate holds what that kernel decides: how a
//! trap cause is decoded, where a trap is routed, and which register is
//! written with which value. Touching the registers themselves is left to the
//! caller; [`hart::Hart`] is the model over which the effects are stated.
//!
//! - [`cause`]: the cause register, decoded.
//! - [`vector`]: the value of the trap-vector register.
//! - [`timer`]: the deadline of the periodic timer interrupt.
//! - [`hart`]: the registers that the kernel writes, and the writes.
//! - [`boot`]: the boot sequence.
//! - [`dispatch`]: the trap dispatcher.

pub mod boot;
pub mod cause;
pub mod dispatch;
pub mod hart;
pub mod timer;
pub mod vector;
