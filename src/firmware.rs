//! The memory-map fetch and the one-way exit from firmware boot services.
//!
//! The firmware calls themselves are made by the caller; this state machine
//! decides, from what each call returned, what happens next.

use vstd::prelude::*;
use crate::error::BootError;

verus! {

/// Status of a firmware call that succeeded.
pub const SUCCESS: u64 = 0;

/// Status firmware returns when the map buffer is too small.
pub const BUFFER_TOO_SMALL: u64 = 0x8000_0000_0000_0005;

/// Progress of the fetch-then-exit handshake.
#[derive(Clone, Copy, PartialEq, Eq, Structural, Debug)]
pub enum HandshakeState {
    /// Nothing fetched yet.
    AwaitingMap,
    /// The map was fetched; `key` must be handed to the exit call.
    MapFetched { key: usize, version: u32 },
    /// Boot services are gone; the snapshot is final.
    Exited { version: u32 },
    /// A call failed; the boot cannot go on.
    Aborted,
}

/// The single-shot handshake with firmware that ends its boot services.
pub struct MapHandshake {
    pub state: HandshakeState,
}

impl MapHandshake {
    pub fn new() -> (r: MapHandshake)
        ensures
            r.state == HandshakeState::AwaitingMap,
    {
        MapHandshake { state: HandshakeState::AwaitingMap }
    }

    /// Takes the outcome of the memory-map fetch. On success, returns the map
    /// key to exit boot services with; a buffer too small, or any other
    /// failure, aborts the boot.
    pub fn map_fetched(&mut self, status: u64, map_key: usize, version: u32) -> (r: Result<
        usize,
        BootError,
    >)
        requires
            old(self).state == HandshakeState::AwaitingMap,
        ensures
            status == SUCCESS ==> r == Ok::<usize, BootError>(map_key) && final(self).state
                == (HandshakeState::MapFetched { key: map_key, version }),
            status == BUFFER_TOO_SMALL ==> r == Err::<usize, BootError>(
                BootError::MapBufferTooSmall,
            ) && final(self).state == HandshakeState::Aborted,
            status != SUCCESS && status != BUFFER_TOO_SMALL ==> r == Err::<usize, BootError>(
                BootError::FirmwareCallFailed,
            ) && final(self).state == HandshakeState::Aborted,
    {
        if status == SUCCESS {
            self.state = HandshakeState::MapFetched { key: map_key, version };
            Ok(map_key)
        } else if status == BUFFER_TOO_SMALL {
            self.state = HandshakeState::Aborted;
            Err(BootError::MapBufferTooSmall)
        } else {
            self.state = HandshakeState::Aborted;
            Err(BootError::FirmwareCallFailed)
        }
    }

    /// Takes the outcome of the exit call made with the fetched key. On
    /// success, returns the descriptor version of the snapshot; a failure is
    /// fatal, since firmware may already be partly torn down.
    pub fn boot_services_exited(&mut self, status: u64) -> (r: Result<u32, BootError>)
        requires
            old(self).state is MapFetched,
        ensures
            status == SUCCESS ==> r == Ok::<u32, BootError>(old(self).state->MapFetched_version)
                && final(self).state == (HandshakeState::Exited {
                version: old(self).state->MapFetched_version,
            }),
            status != SUCCESS ==> r == Err::<u32, BootError>(BootError::FirmwareCallFailed)
                && final(self).state == HandshakeState::Aborted,
    {
        let version = match self.state {
            HandshakeState::MapFetched { version, .. } => version,
            _ => 0,
        };
        if status == SUCCESS {
            self.state = HandshakeState::Exited { version };
            Ok(version)
        } else {
            self.state = HandshakeState::Aborted;
            Err(BootError::FirmwareCallFailed)
        }
    }
}

} // verus!
