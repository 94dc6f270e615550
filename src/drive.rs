use crate::disc::{Disc, DiscIndex};
use vstd::prelude::*;

verus! {

/// Status bit: the spindle motor is on.
pub const STATUS_MOTOR_ON: u8 = 0x02;

/// Status bit: the drive is reading sectors.
pub const STATUS_READING: u8 = 0x20;

/// Status bit: the drive is seeking.
pub const STATUS_SEEKING: u8 = 0x40;

#[derive(Clone, Copy, Debug, PartialEq, Eq, Structural)]
pub enum MotorState {
    Off,
    On,
}

/// Coarse activity of the drive.
#[derive(Clone, Copy, Debug, PartialEq, Eq, Structural)]
pub enum DriveState {
    Idle,
    Seek,
    Read,
}

/// The status byte for a motor state and an activity. The error and
/// shell-open bits are never set: the drive keeps no such condition.
pub open spec fn status_of(motor: MotorState, drive: DriveState) -> u8 {
    let m: int = if motor == MotorState::On { STATUS_MOTOR_ON as int } else { 0 };
    let a: int = match drive {
        DriveState::Idle => 0,
        DriveState::Seek => STATUS_SEEKING as int,
        DriveState::Read => STATUS_READING as int,
    };
    (m + a) as u8
}

/// Mechanical and protocol state of the controller.
pub struct CDDrive {
    /// The mounted disc, if any.
    pub disc: Option<Disc>,
    pub motor_state: MotorState,
    pub drive_state: DriveState,
    /// Mode byte (speed and sector-size flags) from the set-mode command.
    pub drive_mode: u8,
    /// Position set by the set-location command.
    pub seek_target: DiscIndex,
    pub seek_complete: bool,
    /// Byte cursor into the sector being streamed.
    pub read_offset: usize,
    pub read_enabled: bool,
    /// Sector bytes waiting to be transferred.
    pub data_queue: Vec<u8>,
}

impl CDDrive {
    /// The status byte that the drive reports in its current state.
    pub open spec fn status(self) -> u8 {
        status_of(self.motor_state, self.drive_state)
    }

    /// A drive with the motor off, idle, with `disc` mounted (or none).
    pub fn new(disc: Option<Disc>) -> (r: CDDrive)
        ensures
            r.disc == disc,
            r.motor_state == MotorState::Off,
            r.drive_state == DriveState::Idle,
            r.drive_mode == 0,
            r.seek_target == (DiscIndex { minutes: 0, seconds: 0, frames: 0 }),
            !r.seek_complete,
            r.read_offset == 0,
            !r.read_enabled,
            r.data_queue@.len() == 0,
    {
        CDDrive {
            disc,
            motor_state: MotorState::Off,
            drive_state: DriveState::Idle,
            drive_mode: 0,
            seek_target: DiscIndex::new(0, 0, 0),
            seek_complete: false,
            read_offset: 0,
            read_enabled: false,
            data_queue: Vec::new(),
        }
    }

    /// Computes the status byte from the motor state and the activity.
    pub fn get_stat(&self) -> (r: u8)
        ensures
            r == self.status(),
    {
        let motor: u8 = match self.motor_state {
            MotorState::On => STATUS_MOTOR_ON,
            MotorState::Off => 0,
        };
        let activity: u8 = match self.drive_state {
            DriveState::Idle => 0,
            DriveState::Seek => STATUS_SEEKING,
            DriveState::Read => STATUS_READING,
        };
        motor + activity
    }
}

} // verus!
