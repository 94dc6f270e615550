use psx_cdrom::commands::{
    demute, execute_command, get_bios_date, get_id, get_stat, get_td, get_tn, init, play,
    read_with_retry, seek_data, set_loc, set_mode, stat, stop_read, CdError,
    AVG_FIRST_RESPONSE_TIME, AVG_SECOND_RESPONSE_TIME, PAUSE_TIME, READ_LATENCY, SEEK_TIME,
};
use psx_cdrom::disc::{decimal_to_bcd, Disc, DiscIndex};
use psx_cdrom::drive::{CDDrive, DriveState, MotorState};
use psx_cdrom::packet::{delivery_schedule, IntCause, Packet};

fn drive_with_disc(tracks: u8) -> CDDrive {
    CDDrive::new(Some(Disc::new(tracks).unwrap()))
}

#[test]
fn bcd_nibbles_are_tens_and_ones() {
    for n in 0..=99u8 {
        let b = decimal_to_bcd(n);
        assert_eq!(b >> 4, n / 10);
        assert_eq!(b & 0xF, n % 10);
    }
    assert_eq!(decimal_to_bcd(0), 0x00);
    assert_eq!(decimal_to_bcd(5), 0x05);
    assert_eq!(decimal_to_bcd(42), 0x42);
    assert_eq!(decimal_to_bcd(99), 0x99);
}

#[test]
fn get_stat_of_fresh_drive_is_motor_off_idle() {
    let drive = CDDrive::new(None);
    let chain = get_stat(&drive);
    assert_eq!(chain.len(), 1);
    assert_eq!(chain[0].cause, IntCause::Acknowledge);
    assert_eq!(chain[0].response, vec![0x00]);
    assert_eq!(chain[0].execution_cycles, AVG_FIRST_RESPONSE_TIME);
    assert_eq!(chain[0].command, 0x01);
    assert_eq!(drive.get_stat(), 0x00);
}

#[test]
fn init_turns_motor_on_and_reports_it_twice() {
    let mut drive = CDDrive::new(None);
    let chain = init(&mut drive);
    assert_eq!(drive.motor_state, MotorState::On);
    assert_eq!(chain.len(), 2);
    assert_eq!(chain[0].cause, IntCause::Acknowledge);
    assert_eq!(chain[1].cause, IntCause::Complete);
    assert_eq!(chain[0].response, vec![0x02]);
    assert_eq!(chain[1].response, vec![0x02]);
    assert_eq!(chain[1].execution_cycles, AVG_FIRST_RESPONSE_TIME);
    assert_eq!(chain[1].command, 0x0a);
}

#[test]
fn get_id_without_disc_reports_error() {
    let drive = CDDrive::new(None);
    let chain = get_id(&drive);
    assert_eq!(chain.len(), 2);
    assert_eq!(chain[0].cause, IntCause::Acknowledge);
    assert_eq!(chain[0].response, vec![0x00]);
    assert_eq!(chain[1].cause, IntCause::Error);
    assert_eq!(chain[1].response, vec![0x08, 0x40, 0, 0, 0, 0, 0, 0]);
    assert_eq!(chain[1].execution_cycles, AVG_SECOND_RESPONSE_TIME);
}

#[test]
fn get_id_with_disc_reports_licensed_media() {
    let mut drive = drive_with_disc(1);
    init(&mut drive);
    let chain = get_id(&drive);
    assert_eq!(chain.len(), 2);
    assert_eq!(chain[1].cause, IntCause::Complete);
    assert_eq!(chain[1].response, vec![0x02, 0x00, 0x20, 0x00, 0x53, 0x43, 0x45, 0x41]);
    assert_eq!(chain[1].command, 0x1a);
}

#[test]
fn set_loc_resets_read_progress() {
    let mut drive = drive_with_disc(3);
    drive.seek_complete = true;
    drive.read_offset = 1234;
    drive.data_queue = vec![1, 2, 3];
    drive.read_enabled = true;
    let chain = set_loc(&mut drive, 1, 2, 3);
    assert!(!drive.seek_complete);
    assert_eq!(drive.read_offset, 0);
    assert!(drive.data_queue.is_empty());
    assert_eq!(drive.seek_target, DiscIndex::new(1, 2, 3));
    assert!(drive.read_enabled);
    assert_eq!(chain.len(), 1);
    assert_eq!(chain[0].response, vec![0x00]);
    assert_eq!(chain[0].command, 0x02);
}

#[test]
fn get_tn_reports_one_past_track_count_in_bcd() {
    let drive = drive_with_disc(4);
    let chain = get_tn(&drive).unwrap();
    assert_eq!(chain.len(), 1);
    assert_eq!(chain[0].response, vec![0x00, 0x01, 0x05]);
    let drive = drive_with_disc(11);
    assert_eq!(get_tn(&drive).unwrap()[0].response, vec![0x00, 0x01, 0x12]);
}

#[test]
fn get_tn_without_disc_fails() {
    let drive = CDDrive::new(None);
    assert_eq!(get_tn(&drive).unwrap_err(), CdError::NoDiscMounted);
}

#[test]
fn seek_data_persists_seek_and_reports_idle_snapshot_last() {
    let mut drive = drive_with_disc(1);
    init(&mut drive);
    let chain = seek_data(&mut drive);
    assert_eq!(drive.drive_state, DriveState::Seek);
    assert_eq!(chain.len(), 2);
    assert_eq!(chain[0].cause, IntCause::Acknowledge);
    assert_eq!(chain[0].response, vec![0x42]);
    assert_eq!(chain[0].execution_cycles, AVG_FIRST_RESPONSE_TIME);
    assert_eq!(chain[1].cause, IntCause::Complete);
    assert_eq!(chain[1].response, vec![0x02]);
    assert_eq!(chain[1].execution_cycles, SEEK_TIME);
    assert_eq!(SEEK_TIME, 120000);
}

#[test]
fn read_then_pause() {
    let mut drive = drive_with_disc(1);
    init(&mut drive);
    let chain = read_with_retry(&mut drive);
    assert_eq!(drive.drive_state, DriveState::Read);
    assert!(drive.read_enabled);
    assert_eq!(chain[0].response, vec![0x02]);
    assert_eq!(chain[1].cause, IntCause::DataReady);
    assert_eq!(chain[1].response, vec![0x22]);
    assert_eq!(chain[1].execution_cycles, READ_LATENCY);

    let chain = stop_read(&mut drive);
    assert_eq!(drive.drive_state, DriveState::Idle);
    assert!(!drive.read_enabled);
    assert_eq!(chain[0].response, vec![0x22]);
    assert_eq!(chain[1].cause, IntCause::Complete);
    assert_eq!(chain[1].response, vec![0x02]);
    assert_eq!(chain[1].execution_cycles, PAUSE_TIME);
}

#[test]
fn fixed_and_stub_responses() {
    let mut drive = drive_with_disc(2);
    let date = get_bios_date();
    assert_eq!(date.len(), 1);
    assert_eq!(date[0].response, vec![0x94, 0x09, 0x19, 0xC0]);
    assert_eq!(date[0].command, 0x19);
    assert_eq!(get_td(&drive, 7)[0].response, vec![0x00, 0x00, 0x02]);
    assert_eq!(play(&drive)[0].command, 0x03);
    assert_eq!(demute(&drive)[0].command, 0x0c);
    let chain = set_mode(&mut drive, 0x80);
    assert_eq!(drive.drive_mode, 0x80);
    assert_eq!(chain[0].command, 0x0e);
    let p: Packet = stat(&drive, 0x33);
    assert_eq!(p.command, 0x33);
    assert_eq!(p.response, vec![0x00]);
}

#[test]
fn dispatcher_runs_handlers_and_rejects_bad_commands() {
    let mut drive = CDDrive::new(None);
    assert_eq!(execute_command(&mut drive, 0x1f, &[]).unwrap_err(), CdError::UnsupportedCommand);
    assert_eq!(execute_command(&mut drive, 0x02, &[1]).unwrap_err(), CdError::WrongParameterCount);
    assert_eq!(execute_command(&mut drive, 0x19, &[0x21]).unwrap_err(), CdError::UnsupportedCommand);
    assert_eq!(execute_command(&mut drive, 0x13, &[]).unwrap_err(), CdError::NoDiscMounted);
    let chain = execute_command(&mut drive, 0x0a, &[]).unwrap();
    assert_eq!(chain.len(), 2);
    assert_eq!(drive.motor_state, MotorState::On);
    let chain = execute_command(&mut drive, 0x02, &[0, 2, 16]).unwrap();
    assert_eq!(chain[0].command, 0x02);
    assert_eq!(drive.seek_target, DiscIndex::new(0, 2, 16));
    let chain = execute_command(&mut drive, 0x19, &[0x20]).unwrap();
    assert_eq!(chain[0].response, vec![0x94, 0x09, 0x19, 0xC0]);
}

#[test]
fn delivery_times_accumulate_in_chain_order() {
    let mut drive = drive_with_disc(1);
    let chain = seek_data(&mut drive);
    let deliveries = delivery_schedule(&chain);
    assert_eq!(deliveries.len(), 2);
    assert_eq!(deliveries[0].at_cycle, AVG_FIRST_RESPONSE_TIME as u64);
    assert_eq!(deliveries[1].at_cycle, AVG_FIRST_RESPONSE_TIME as u64 + 120000);
    assert_eq!(deliveries[0].cause, IntCause::Acknowledge);
    assert_eq!(deliveries[1].cause, IntCause::Complete);
    assert_eq!(deliveries[1].response, chain[1].response);
    assert!(delivery_schedule(&Vec::new()).is_empty());
}

#[test]
fn discs_and_positions() {
    assert!(Disc::new(99).is_none());
    assert_eq!(Disc::new(98).unwrap().track_count(), 98);
    assert_eq!(DiscIndex::new(0, 2, 0).sector(), 150);
    assert_eq!(DiscIndex::new(1, 0, 1).sector(), 4501);
    assert_eq!(IntCause::Error.code(), 5);
    assert_eq!(IntCause::Acknowledge.code(), 3);
}
