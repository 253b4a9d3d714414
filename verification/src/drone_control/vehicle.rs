//! Bookkeeping of the drone's trajectory memory: each stored trajectory gets the next
//! number and the bytes right after the previous one.
use vstd::prelude::*;
use crate::drone_control::command_unit::TrajectoryId;

verus! {

/// The number of the last trajectory stored, and where free trajectory memory begins.
#[derive(Debug, Clone, Copy, PartialEq, Eq, Default)]
pub struct TrajectoryState {
    pub current_id: TrajectoryId,
    pub offset_bytes: usize,
}

impl TrajectoryState {
    /// Nothing stored yet.
    pub fn new() -> (s: Self)
        ensures
            s.current_id == TrajectoryId(0),
            s.offset_bytes == 0,
    {
        TrajectoryState { current_id: TrajectoryId(0), offset_bytes: 0 }
    }

    /// The number and memory offset for the next trajectory to store.
    pub fn reservation(&self) -> (r: TrajectoryState)
        requires
            self.current_id.0 < 255,
        ensures
            r.current_id.0 == self.current_id.0 + 1,
            r.offset_bytes == self.offset_bytes,
    {
        TrajectoryState { current_id: TrajectoryId(self.current_id.0 + 1), offset_bytes: self.offset_bytes }
    }

    /// Records that the reserved trajectory was written with `bytes_written` bytes.
    pub fn commit(&mut self, reserved: TrajectoryState, bytes_written: usize)
        requires
            reserved.offset_bytes + bytes_written <= usize::MAX,
        ensures
            final(self).current_id == reserved.current_id,
            final(self).offset_bytes == reserved.offset_bytes + bytes_written,
    {
        *self = TrajectoryState { current_id: reserved.current_id, offset_bytes: reserved.offset_bytes + bytes_written };
    }
}

} // verus!
