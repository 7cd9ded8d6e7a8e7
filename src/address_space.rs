//! The switch to a kernel-owned top-level page table.
//!
//! The caller reads and writes the control register and copies the table;
//! this state machine checks each address on the way and records the new
//! root once it is active.

use vstd::prelude::*;
use x86_64::structures::paging::{PhysFrame, Size4KiB};
use x86_64::{PhysAddr, VirtAddr};
use crate::error::BootError;
use crate::memory::PHYS_LIMIT;

verus! {

/// The lower half of the canonical virtual addresses ends at 2^47.
pub const LOWER_HALF_END: u64 = 0x8000_0000_0000;

/// The canonical form of a virtual address, if it has one: bits 48 to 63
/// must be empty or a copy of bit 47, and are filled in from bit 47 when
/// only bit 47 of them is set.
pub open spec fn canonical_form(addr: u64) -> Option<u64> {
    if addr < LOWER_HALF_END || addr >= 0xffff_8000_0000_0000 {
        Some(addr)
    } else if addr < 0x1_0000_0000_0000 {
        Some((addr + 0xffff_0000_0000_0000u64) as u64)
    } else {
        None
    }
}

/// Relies on x86_64's `PhysAddr::try_new`: it accepts exactly the values
/// with bits 52 to 63 clear.
#[verifier::external_body]
fn is_physical(addr: u64) -> (r: bool)
    ensures
        r == (addr < PHYS_LIMIT),
{
    PhysAddr::try_new(addr).is_ok()
}

/// Relies on x86_64's `PhysFrame::<Size4KiB>::from_start_address`: it
/// accepts exactly the 4096-aligned addresses, and the frame starts there.
#[verifier::external_body]
fn frame_starting_at(addr: u64) -> (r: Option<u64>)
    requires
        addr < PHYS_LIMIT,
    ensures
        r == (if addr % 4096 == 0 { Some(addr) } else { None::<u64> }),
{
    match PhysFrame::<Size4KiB>::from_start_address(PhysAddr::new(addr)) {
        Ok(frame) => Some(frame.start_address().as_u64()),
        Err(_) => None,
    }
}

/// Relies on x86_64's `VirtAddr::try_new`: it returns the canonical form of
/// the address, or fails when bits 48 to 63 are neither empty, nor a copy
/// of bit 47, nor bit 47 alone.
#[verifier::external_body]
fn canonical_virtual(addr: u64) -> (r: Option<u64>)
    ensures
        r == canonical_form(addr),
{
    match VirtAddr::try_new(addr) {
        Ok(v) => Some(v.as_u64()),
        Err(_) => None,
    }
}

/// The address through which a zero-offset view reaches the physical
/// address `phys`: `phys` itself, when it is a physical address whose
/// identity mapping is a canonical virtual address.
pub fn identity_view(phys: u64) -> (r: Result<u64, BootError>)
    ensures
        r == (if phys < LOWER_HALF_END { Ok::<u64, BootError>(phys) } else { Err::<
            u64,
            BootError,
        >(BootError::InvalidTranslation) }),
{
    if !is_physical(phys) {
        return Err(BootError::InvalidTranslation);
    }
    match canonical_virtual(phys) {
        Some(v) => {
            if v == phys {
                Ok(v)
            } else {
                Err(BootError::InvalidTranslation)
            }
        },
        None => Err(BootError::InvalidTranslation),
    }
}

/// The frame that a top-level table at `addr` occupies, as the control
/// register takes it: `addr` must be a physical address on a page boundary.
pub fn root_frame(addr: u64) -> (r: Result<u64, BootError>)
    ensures
        r == (if addr < PHYS_LIMIT && addr % 4096 == 0 { Ok::<u64, BootError>(addr) } else { Err::<
            u64,
            BootError,
        >(BootError::InvalidTranslation) }),
{
    if !is_physical(addr) {
        return Err(BootError::InvalidTranslation);
    }
    match frame_starting_at(addr) {
        Some(start) => Ok(start),
        None => Err(BootError::InvalidTranslation),
    }
}

/// Progress of the switch to the kernel's own top-level table.
#[derive(Clone, Copy, PartialEq, Eq, Structural, Debug)]
pub enum BootstrapState {
    /// The active root has not been read yet.
    ReadActive,
    /// The active root is known; its entries are to be copied.
    CopyRoot { active_root: u64 },
    /// The copy is ready; its frame is to be written to the control register.
    Activate { new_root: u64 },
    /// The copy is the active table; its address is recorded for good.
    Active { kernel_root: u64 },
    /// A step failed; the boot cannot go on.
    Aborted,
}

/// The ordered steps that give the kernel its own top-level page table.
pub struct AddressSpaceBootstrap {
    pub state: BootstrapState,
}

impl AddressSpaceBootstrap {
    pub fn new() -> (r: AddressSpaceBootstrap)
        ensures
            r.state == BootstrapState::ReadActive,
    {
        AddressSpaceBootstrap { state: BootstrapState::ReadActive }
    }

    /// Takes the start address of the active root, as read from the control
    /// register, and returns the address to read it through.
    pub fn active_root_read(&mut self, root: u64) -> (r: Result<u64, BootError>)
        requires
            old(self).state == BootstrapState::ReadActive,
        ensures
            root < LOWER_HALF_END ==> r == Ok::<u64, BootError>(root) && final(self).state == (
            BootstrapState::CopyRoot { active_root: root }),
            root >= LOWER_HALF_END ==> r == Err::<u64, BootError>(BootError::InvalidTranslation)
                && final(self).state == BootstrapState::Aborted,
    {
        match identity_view(root) {
            Ok(view) => {
                self.state = BootstrapState::CopyRoot { active_root: root };
                Ok(view)
            },
            Err(e) => {
                self.state = BootstrapState::Aborted;
                Err(e)
            },
        }
    }

    /// Takes the address of the copied root, reached through the same
    /// zero-offset view, and returns the frame to make active. The copy must
    /// be a table of its own: the active root itself is refused.
    pub fn root_copied(&mut self, copy: u64) -> (r: Result<u64, BootError>)
        requires
            old(self).state is CopyRoot,
        ensures
            copy < LOWER_HALF_END && copy % 4096 == 0 && copy != old(
                self,
            ).state->CopyRoot_active_root ==> r == Ok::<u64, BootError>(copy) && final(self).state
                == (BootstrapState::Activate { new_root: copy }),
            !(copy < LOWER_HALF_END && copy % 4096 == 0 && copy != old(
                self,
            ).state->CopyRoot_active_root) ==> r == Err::<u64, BootError>(
                BootError::InvalidTranslation,
            ) && final(self).state == BootstrapState::Aborted,
    {
        let active_root = match self.state {
            BootstrapState::CopyRoot { active_root } => active_root,
            _ => 0,
        };
        if copy == active_root {
            self.state = BootstrapState::Aborted;
            return Err(BootError::InvalidTranslation);
        }
        let checked = match identity_view(copy) {
            Ok(phys) => root_frame(phys),
            Err(e) => Err(e),
        };
        match checked {
            Ok(frame) => {
                self.state = BootstrapState::Activate { new_root: frame };
                Ok(frame)
            },
            Err(e) => {
                self.state = BootstrapState::Aborted;
                Err(e)
            },
        }
    }

    /// Records that the copy is now the active table, and returns its
    /// address. The record is final: no step leaves `Active`.
    pub fn activated(&mut self) -> (r: u64)
        requires
            old(self).state is Activate,
        ensures
            r == old(self).state->Activate_new_root,
            final(self).state == (BootstrapState::Active { kernel_root: r }),
    {
        let root = match self.state {
            BootstrapState::Activate { new_root } => new_root,
            _ => 0,
        };
        self.state = BootstrapState::Active { kernel_root: root };
        root
    }

    /// The recorded kernel root, once the switch is done.
    pub fn kernel_root(&self) -> (r: Option<u64>)
        ensures
            r == (match self.state {
                BootstrapState::Active { kernel_root } => Some(kernel_root),
                _ => None,
            }),
    {
        match self.state {
            BootstrapState::Active { kernel_root } => Some(kernel_root),
            _ => None,
        }
    }
}

} // verus!
