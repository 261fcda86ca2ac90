//! Errors of snapshot streams.

use vstd::prelude::*;

verus! {

/// Stream states of snapshot streams in the C API.
pub const WORKER_STREAM_STATE_GOOD: u8 = 0;
pub const WORKER_STREAM_STATE_BAD: u8 = 1;
pub const WORKER_STREAM_STATE_INVALID_DATA: u8 = 2;
pub const WORKER_STREAM_STATE_EOF: u8 = 3;

/// What went wrong with a snapshot stream.
#[derive(Debug)]
pub enum SnapshotError {
    BadState(String),
    InvalidData(String),
    EntitySerializationFailure(String),
    EOF,
}

/// The error that a stream state and its error message stand for; a state
/// that is neither invalid data nor the end of the stream counts as bad.
pub open spec fn snapshot_error_of(stream_state: u8, error_message: String) -> SnapshotError {
    if stream_state == WORKER_STREAM_STATE_INVALID_DATA {
        SnapshotError::InvalidData(error_message)
    } else if stream_state == WORKER_STREAM_STATE_EOF {
        SnapshotError::EOF
    } else {
        SnapshotError::BadState(error_message)
    }
}

impl SnapshotError {
    /// Reads the state of a snapshot stream that failed.
    pub fn from_state(stream_state: u8, error_message: String) -> (res: SnapshotError)
        ensures
            res == snapshot_error_of(stream_state, error_message),
    {
        if stream_state == WORKER_STREAM_STATE_INVALID_DATA {
            SnapshotError::InvalidData(error_message)
        } else if stream_state == WORKER_STREAM_STATE_EOF {
            SnapshotError::EOF
        } else {
            SnapshotError::BadState(error_message)
        }
    }
}

} // verus!
