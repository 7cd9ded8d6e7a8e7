//! Saved processor state.

use vstd::prelude::*;

verus! {

/// The general-purpose registers, instruction pointer and flags of a
/// suspended thread of execution.
#[derive(Clone, Copy, PartialEq, Eq, Structural, Debug, Default)]
pub struct CpuState {
    pub rax: u64,
    pub rbx: u64,
    pub rcx: u64,
    pub rdx: u64,
    pub rsp: u64,
    pub rbp: u64,
    pub rsi: u64,
    pub rdi: u64,
    pub rip: u64,
    pub flags: u64,
}

} // verus!
