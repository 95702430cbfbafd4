//! A spinning mutual-exclusion primitive for bare-metal, multi-hart machines,
//! with the timer-compare arithmetic and the register layout it lives beside.
//!
//! * [`lock_state`]: the lock word and its two transitions.
//! * [`spinlock`]: the mutex and the guard it hands out.
//! * [`interleaving`]: several units sharing one mutex, and what holds of every
//!   interleaving of their steps.
//! * [`clint`]: where a hart's timer-compare register lives and what is written
//!   there to arm the next timer interrupt.
//! * [`riscv`]: bit positions in the privileged status and interrupt registers.
//! * [`param`]: the memory layout and the number of harts.

pub mod clint;
pub mod interleaving;
pub mod lock_state;
pub mod param;
pub mod riscv;
mod slot;
pub mod spinlock;
