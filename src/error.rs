//! The fatal conditions of the boot sequence.

use vstd::prelude::*;

verus! {

/// Why the boot sequence cannot go on. Running out of frames is not among
/// them: the allocator reports it as `None`.
#[derive(Clone, Copy, PartialEq, Eq, Structural, Debug)]
pub enum BootError {
    /// A firmware entry point returned a non-zero status.
    FirmwareCallFailed,
    /// The fixed map buffer cannot hold the firmware's memory map.
    MapBufferTooSmall,
    /// A page-table root could not be reached or installed.
    InvalidTranslation,
}

} // verus!
