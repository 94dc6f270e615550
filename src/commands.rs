use crate::disc::{bcd_of, decimal_to_bcd, DiscIndex};
use crate::drive::{status_of, CDDrive, DriveState, MotorState};
use crate::packet::{is_packet, IntCause, Packet};
use vstd::prelude::*;

verus! {

/// Default delay of a command's first response.
pub const AVG_FIRST_RESPONSE_TIME: u32 = 0xc4e1;

/// Default delay of a command's second response.
pub const AVG_SECOND_RESPONSE_TIME: u32 = 0x1000;

/// Fixed delay until a seek is reported complete.
pub const SEEK_TIME: u32 = 120000;

/// Fixed delay until the first sector of a read is ready.
pub const READ_LATENCY: u32 = 0x36cd2;

/// Fixed delay until the drive has stopped after a pause.
pub const PAUSE_TIME: u32 = 1_000_000;

pub const CMD_GET_STAT: u8 = 0x01;
pub const CMD_SET_LOC: u8 = 0x02;
pub const CMD_PLAY: u8 = 0x03;
pub const CMD_READ_N: u8 = 0x06;
pub const CMD_PAUSE: u8 = 0x09;
pub const CMD_INIT: u8 = 0x0a;
pub const CMD_DEMUTE: u8 = 0x0c;
pub const CMD_SET_MODE: u8 = 0x0e;
pub const CMD_GET_TN: u8 = 0x13;
pub const CMD_GET_TD: u8 = 0x14;
pub const CMD_SEEK_L: u8 = 0x15;
pub const CMD_TEST: u8 = 0x19;
pub const CMD_GET_ID: u8 = 0x1a;

/// Sub-function of the test command that reports the firmware date.
pub const TEST_BIOS_DATE: u8 = 0x20;

/// Why a command could not be carried out.
#[derive(Clone, Copy, Debug, PartialEq, Eq, Structural)]
pub enum CdError {
    /// The opcode (or test sub-function) is not one the controller knows.
    UnsupportedCommand,
    /// The command needs a disc and none is mounted.
    NoDiscMounted,
    /// The number of parameter bytes differs from the command's arity.
    WrongParameterCount,
}

/// Firmware date and version: PU-7, revision A.
pub open spec fn bios_date_bytes() -> Seq<u8> {
    seq![0x94u8, 0x09u8, 0x19u8, 0xC0u8]
}

/// Second response of get-id for a licensed disc, after the status byte.
pub open spec fn licensed_id_bytes() -> Seq<u8> {
    seq![0x00u8, 0x20u8, 0x00u8, 0x53u8, 0x43u8, 0x45u8, 0x41u8]
}

/// Second response of get-id when no disc is mounted.
pub open spec fn no_disc_bytes() -> Seq<u8> {
    seq![0x08u8, 0x40u8, 0u8, 0u8, 0u8, 0u8, 0u8, 0u8]
}

/// An acknowledgement carrying one status byte, at the default delay.
pub open spec fn is_ack(p: Packet, status: u8, command: u8) -> bool {
    is_packet(p, IntCause::Acknowledge, seq![status], AVG_FIRST_RESPONSE_TIME, command)
}

/// A chain of a single acknowledgement with one status byte.
pub open spec fn single_ack(chain: Seq<Packet>, status: u8, command: u8) -> bool {
    chain.len() == 1 && is_ack(chain[0], status, command)
}

pub open spec fn get_bios_date_chain(chain: Seq<Packet>) -> bool {
    &&& chain.len() == 1
    &&& is_packet(chain[0], IntCause::Acknowledge, bios_date_bytes(), AVG_FIRST_RESPONSE_TIME, CMD_TEST)
}

pub open spec fn get_id_chain(s: CDDrive, chain: Seq<Packet>) -> bool {
    &&& chain.len() == 2
    &&& is_ack(chain[0], s.status(), CMD_GET_ID)
    &&& if s.disc is Some {
        is_packet(
            chain[1],
            IntCause::Complete,
            seq![s.status()] + licensed_id_bytes(),
            AVG_SECOND_RESPONSE_TIME,
            CMD_GET_ID,
        )
    } else {
        is_packet(chain[1], IntCause::Error, no_disc_bytes(), AVG_SECOND_RESPONSE_TIME, CMD_GET_ID)
    }
}

pub open spec fn init_done(old: CDDrive, new: CDDrive, chain: Seq<Packet>) -> bool {
    &&& new == (CDDrive { motor_state: MotorState::On, ..old })
    &&& chain.len() == 2
    &&& is_ack(chain[0], new.status(), CMD_INIT)
    &&& is_packet(chain[1], IntCause::Complete, seq![new.status()], AVG_FIRST_RESPONSE_TIME, CMD_INIT)
}

pub open spec fn set_loc_done(
    old: CDDrive,
    new: CDDrive,
    chain: Seq<Packet>,
    minutes: u8,
    seconds: u8,
    frames: u8,
) -> bool {
    &&& new.disc == old.disc
    &&& new.motor_state == old.motor_state
    &&& new.drive_state == old.drive_state
    &&& new.drive_mode == old.drive_mode
    &&& new.seek_target == (DiscIndex { minutes, seconds, frames })
    &&& !new.seek_complete
    &&& new.read_offset == 0
    &&& new.read_enabled == old.read_enabled
    &&& new.data_queue@.len() == 0
    &&& single_ack(chain, new.status(), CMD_SET_LOC)
}

pub open spec fn seek_data_done(old: CDDrive, new: CDDrive, chain: Seq<Packet>) -> bool {
    &&& new == (CDDrive { drive_state: DriveState::Seek, ..old })
    &&& chain.len() == 2
    &&& is_ack(chain[0], status_of(old.motor_state, DriveState::Seek), CMD_SEEK_L)
    &&& is_packet(
        chain[1],
        IntCause::Complete,
        seq![status_of(old.motor_state, DriveState::Idle)],
        SEEK_TIME,
        CMD_SEEK_L,
    )
}

pub open spec fn set_mode_done(old: CDDrive, new: CDDrive, chain: Seq<Packet>, mode: u8) -> bool {
    &&& new == (CDDrive { drive_mode: mode, ..old })
    &&& single_ack(chain, new.status(), CMD_SET_MODE)
}

pub open spec fn read_with_retry_done(old: CDDrive, new: CDDrive, chain: Seq<Packet>) -> bool {
    &&& new == (CDDrive { drive_state: DriveState::Read, read_enabled: true, ..old })
    &&& chain.len() == 2
    &&& is_ack(chain[0], old.status(), CMD_READ_N)
    &&& is_packet(chain[1], IntCause::DataReady, seq![new.status()], READ_LATENCY, CMD_READ_N)
}

pub open spec fn stop_read_done(old: CDDrive, new: CDDrive, chain: Seq<Packet>) -> bool {
    &&& new == (CDDrive { drive_state: DriveState::Idle, read_enabled: false, ..old })
    &&& chain.len() == 2
    &&& is_ack(chain[0], old.status(), CMD_PAUSE)
    &&& is_packet(chain[1], IntCause::Complete, seq![new.status()], PAUSE_TIME, CMD_PAUSE)
}

/// Track numbers of the disc's single session: first 1, last one past the
/// track count, both in BCD.
pub open spec fn get_tn_chain(s: CDDrive, chain: Seq<Packet>) -> bool {
    &&& s.disc is Some
    &&& chain.len() == 1
    &&& is_packet(
        chain[0],
        IntCause::Acknowledge,
        seq![s.status(), 0x01u8, bcd_of(s.disc->0.tracks() + 1) as u8],
        AVG_FIRST_RESPONSE_TIME,
        CMD_GET_TN,
    )
}

/// Start of a track; always 00:02, the start of the first track.
pub open spec fn get_td_chain(s: CDDrive, chain: Seq<Packet>) -> bool {
    &&& chain.len() == 1
    &&& is_packet(
        chain[0],
        IntCause::Acknowledge,
        seq![s.status(), 0x00u8, 0x02u8],
        AVG_FIRST_RESPONSE_TIME,
        CMD_GET_TD,
    )
}

/// Reports the firmware date and version.
pub fn get_bios_date() -> (r: Vec<Packet>)
    ensures
        get_bios_date_chain(r@),
{
    let p = Packet {
        cause: IntCause::Acknowledge,
        response: vec![0x94, 0x09, 0x19, 0xC0],
        execution_cycles: AVG_FIRST_RESPONSE_TIME,
        command: CMD_TEST,
    };
    assert(p.response@ == bios_date_bytes());
    vec![p]
}

/// An acknowledgement of `command` with the drive's current status.
pub fn stat(state: &CDDrive, command: u8) -> (r: Packet)
    ensures
        is_ack(r, state.status(), command),
{
    let p = Packet {
        cause: IntCause::Acknowledge,
        response: vec![state.get_stat()],
        execution_cycles: AVG_FIRST_RESPONSE_TIME,
        command,
    };
    assert(p.response@ =~= seq![state.status()]);
    p
}

/// Reports the status byte.
pub fn get_stat(state: &CDDrive) -> (r: Vec<Packet>)
    ensures
        single_ack(r@, state.status(), CMD_GET_STAT),
{
    vec![stat(state, CMD_GET_STAT)]
}

/// Identifies the mounted disc: a licensed disc, or none.
pub fn get_id(state: &CDDrive) -> (r: Vec<Packet>)
    ensures
        get_id_chain(*state, r@),
{
    let first = stat(state, CMD_GET_ID);
    let second = if state.disc.is_some() {
        let p = Packet {
            cause: IntCause::Complete,
            response: vec![state.get_stat(), 0x00, 0x20, 0x00, 0x53, 0x43, 0x45, 0x41],
            execution_cycles: AVG_SECOND_RESPONSE_TIME,
            command: CMD_GET_ID,
        };
        assert(p.response@ =~= seq![state.status()] + licensed_id_bytes());
        p
    } else {
        let p = Packet {
            cause: IntCause::Error,
            response: vec![0x08, 0x40, 0, 0, 0, 0, 0, 0],
            execution_cycles: AVG_SECOND_RESPONSE_TIME,
            command: CMD_GET_ID,
        };
        assert(p.response@ =~= no_disc_bytes());
        p
    };
    vec![first, second]
}

/// Starts the motor; both responses report the running motor.
pub fn init(state: &mut CDDrive) -> (r: Vec<Packet>)
    ensures
        init_done(*old(state), *final(state), r@),
        final(state).motor_state == MotorState::On,
        r@[0].response@ == r@[1].response@,
        r@[0].response@[0] == status_of(MotorState::On, old(state).drive_state),
{
    state.motor_state = MotorState::On;
    let first = stat(state, CMD_INIT);
    let mut second = stat(state, CMD_INIT);
    second.cause = IntCause::Complete;
    vec![first, second]
}

/// Sets the seek target; the previous seek and any buffered data are dropped.
pub fn set_loc(state: &mut CDDrive, minutes: u8, seconds: u8, frames: u8) -> (r: Vec<Packet>)
    ensures
        set_loc_done(*old(state), *final(state), r@, minutes, seconds, frames),
{
    state.seek_target = DiscIndex::new(minutes, seconds, frames);
    state.seek_complete = false;
    state.read_offset = 0;
    state.data_queue.clear();
    vec![stat(state, CMD_SET_LOC)]
}

/// Seeks to the target (SeekL). The completion packet carries the status
/// taken while the drive was still idle, before it was put into seek.
pub fn seek_data(state: &mut CDDrive) -> (r: Vec<Packet>)
    ensures
        seek_data_done(*old(state), *final(state), r@),
        final(state).drive_state == DriveState::Seek,
        r@[1].cause == IntCause::Complete,
        r@[0].response@ != r@[1].response@,
{
    state.drive_state = DriveState::Idle;
    let mut second = stat(state, CMD_SEEK_L);

    state.drive_state = DriveState::Seek;
    let first = stat(state, CMD_SEEK_L);
    second.cause = IntCause::Complete;
    second.execution_cycles = SEEK_TIME;
    assert(first.response@[0] != second.response@[0]);
    vec![first, second]
}

/// Sets the mode byte.
pub fn set_mode(state: &mut CDDrive, mode: u8) -> (r: Vec<Packet>)
    ensures
        set_mode_done(*old(state), *final(state), r@, mode),
{
    state.drive_mode = mode;
    vec![stat(state, CMD_SET_MODE)]
}

/// Starts reading (ReadN). Only the first data-ready event is produced here;
/// streaming the following sectors is left to the caller.
pub fn read_with_retry(state: &mut CDDrive) -> (r: Vec<Packet>)
    ensures
        read_with_retry_done(*old(state), *final(state), r@),
{
    let first = stat(state, CMD_READ_N);
    state.drive_state = DriveState::Read;
    state.read_enabled = true;
    let second = Packet {
        cause: IntCause::DataReady,
        response: vec![state.get_stat()],
        execution_cycles: READ_LATENCY,
        command: CMD_READ_N,
    };
    assert(second.response@ =~= seq![state.status()]);
    vec![first, second]
}

/// Stops reading (Pause). The drive is idle at once; the completion is
/// announced after the mechanical stop delay.
pub fn stop_read(state: &mut CDDrive) -> (r: Vec<Packet>)
    ensures
        stop_read_done(*old(state), *final(state), r@),
{
    let first = stat(state, CMD_PAUSE);
    state.drive_state = DriveState::Idle;
    state.read_enabled = false;
    let second = Packet {
        cause: IntCause::Complete,
        response: vec![state.get_stat()],
        execution_cycles: PAUSE_TIME,
        command: CMD_PAUSE,
    };
    assert(second.response@ =~= seq![state.status()]);
    vec![first, second]
}

/// Turns audio output on; acknowledged only, no audio is produced.
pub fn demute(state: &CDDrive) -> (r: Vec<Packet>)
    ensures
        single_ack(r@, state.status(), CMD_DEMUTE),
{
    vec![stat(state, CMD_DEMUTE)]
}

/// Reports the first and last track numbers of the disc's single session.
pub fn get_tn(state: &CDDrive) -> (r: Result<Vec<Packet>, CdError>)
    ensures
        r is Err <==> state.disc is None,
        r matches Err(e) ==> e == CdError::NoDiscMounted,
        r matches Ok(chain) ==> get_tn_chain(*state, chain@),
{
    match &state.disc {
        None => Err(CdError::NoDiscMounted),
        Some(disc) => {
            let first_track: u8 = 0x01;
            let last_track = decimal_to_bcd(disc.track_count() + 1);
            let mut p = stat(state, CMD_GET_TN);
            p.response.push(first_track);
            p.response.push(last_track);
            assert(p.response@ =~= seq![state.status(), 0x01u8, bcd_of(disc.tracks() + 1) as u8]);
            Ok(vec![p])
        },
    }
}

/// Reports where a track starts. Not yet accurate: every track is reported
/// at 00:02, the start of the first one.
pub fn get_td(state: &CDDrive, _track: u8) -> (r: Vec<Packet>)
    ensures
        get_td_chain(*state, r@),
{
    let mut p = stat(state, CMD_GET_TD);
    p.response.push(0x00);
    p.response.push(0x02);
    assert(p.response@ =~= seq![state.status(), 0x00u8, 0x02u8]);
    vec![p]
}

/// Starts audio playback; acknowledged only, no audio is produced.
pub fn play(state: &CDDrive) -> (r: Vec<Packet>)
    ensures
        single_ack(r@, state.status(), CMD_PLAY),
{
    vec![stat(state, CMD_PLAY)]
}

/// Number of parameter bytes each known opcode takes; `None` for an unknown
/// opcode.
pub open spec fn arity(command: u8) -> Option<nat> {
    if command == CMD_GET_STAT || command == CMD_PLAY || command == CMD_READ_N || command
        == CMD_PAUSE || command == CMD_INIT || command == CMD_DEMUTE || command == CMD_GET_TN
        || command == CMD_SEEK_L || command == CMD_GET_ID {
        Some(0)
    } else if command == CMD_SET_MODE || command == CMD_GET_TD || command == CMD_TEST {
        Some(1)
    } else if command == CMD_SET_LOC {
        Some(3)
    } else {
        None
    }
}

/// The error that a command meets in state `s`, if any.
pub open spec fn command_error(s: CDDrive, command: u8, params: Seq<u8>) -> Option<CdError> {
    match arity(command) {
        None => Some(CdError::UnsupportedCommand),
        Some(n) => if params.len() != n {
            Some(CdError::WrongParameterCount)
        } else if command == CMD_TEST && params[0] != TEST_BIOS_DATE {
            Some(CdError::UnsupportedCommand)
        } else if command == CMD_GET_TN && s.disc is None {
            Some(CdError::NoDiscMounted)
        } else {
            None
        },
    }
}

/// What a successful command does to the drive and which chain it answers
/// with.
pub open spec fn command_done(
    old: CDDrive,
    new: CDDrive,
    command: u8,
    params: Seq<u8>,
    chain: Seq<Packet>,
) -> bool {
    if command == CMD_SET_LOC {
        set_loc_done(old, new, chain, params[0], params[1], params[2])
    } else if command == CMD_INIT {
        init_done(old, new, chain)
    } else if command == CMD_SEEK_L {
        seek_data_done(old, new, chain)
    } else if command == CMD_SET_MODE {
        set_mode_done(old, new, chain, params[0])
    } else if command == CMD_READ_N {
        read_with_retry_done(old, new, chain)
    } else if command == CMD_PAUSE {
        stop_read_done(old, new, chain)
    } else {
        &&& new == old
        &&& if command == CMD_TEST {
            get_bios_date_chain(chain)
        } else if command == CMD_GET_STAT {
            single_ack(chain, old.status(), CMD_GET_STAT)
        } else if command == CMD_GET_ID {
            get_id_chain(old, chain)
        } else if command == CMD_DEMUTE {
            single_ack(chain, old.status(), CMD_DEMUTE)
        } else if command == CMD_GET_TN {
            get_tn_chain(old, chain)
        } else if command == CMD_GET_TD {
            get_td_chain(old, chain)
        } else {
            command == CMD_PLAY && single_ack(chain, old.status(), CMD_PLAY)
        }
    }
}

/// Carries out one command with its parameter bytes: checks the opcode and
/// the number of parameters, then runs the command's handler.
pub fn execute_command(state: &mut CDDrive, command: u8, params: &[u8]) -> (r: Result<Vec<Packet>, CdError>)
    ensures
        r is Err <==> command_error(*old(state), command, params@) is Some,
        r matches Err(e) ==> command_error(*old(state), command, params@) == Some(e),
        r is Err ==> *final(state) == *old(state),
        r matches Ok(chain) ==> command_done(*old(state), *final(state), command, params@, chain@),
{
    let n: usize = if command == CMD_GET_STAT || command == CMD_PLAY || command == CMD_READ_N
        || command == CMD_PAUSE || command == CMD_INIT || command == CMD_DEMUTE || command
        == CMD_GET_TN || command == CMD_SEEK_L || command == CMD_GET_ID {
        0
    } else if command == CMD_SET_MODE || command == CMD_GET_TD || command == CMD_TEST {
        1
    } else if command == CMD_SET_LOC {
        3
    } else {
        return Err(CdError::UnsupportedCommand);
    };
    if params.len() != n {
        return Err(CdError::WrongParameterCount);
    }
    if command == CMD_SET_LOC {
        Ok(set_loc(state, params[0], params[1], params[2]))
    } else if command == CMD_INIT {
        Ok(init(state))
    } else if command == CMD_SEEK_L {
        Ok(seek_data(state))
    } else if command == CMD_SET_MODE {
        Ok(set_mode(state, params[0]))
    } else if command == CMD_READ_N {
        Ok(read_with_retry(state))
    } else if command == CMD_PAUSE {
        Ok(stop_read(state))
    } else if command == CMD_TEST {
        if params[0] == TEST_BIOS_DATE {
            Ok(get_bios_date())
        } else {
            Err(CdError::UnsupportedCommand)
        }
    } else if command == CMD_GET_STAT {
        Ok(get_stat(state))
    } else if command == CMD_GET_ID {
        Ok(get_id(state))
    } else if command == CMD_DEMUTE {
        Ok(demute(state))
    } else if command == CMD_GET_TN {
        get_tn(state)
    } else if command == CMD_GET_TD {
        Ok(get_td(state, params[0]))
    } else {
        Ok(play(state))
    }
}

} // verus!
