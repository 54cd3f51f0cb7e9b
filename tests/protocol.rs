use it8951::{
    get_command_block_wrapper, CommandError, CommandFramer, CommandStatusWrapper, CswStatus,
    Direction, ScsiOverUsbConnection, StatusReader, StatusStep, Step, TransportError, CBW_LEN,
};

const COMMAND: [u8; 16] = [0, 1, 2, 3, 4, 5, 6, 7, 8, 9, 10, 11, 12, 13, 14, 15];

fn csw(tag: u32, residue: u32, status: u8) -> Vec<u8> {
    let mut v = b"USBS".to_vec();
    v.extend_from_slice(&tag.to_le_bytes());
    v.extend_from_slice(&residue.to_le_bytes());
    v.push(status);
    v
}

#[test]
fn mass_storage_command_data() {
    let mut framer = CommandFramer::new();
    let data = get_command_block_wrapper(
        &mut framer,
        &[0, 1, 2, 3, 4, 5, 6, 7, 8, 9, 10, 11, 12, 13, 14, 15],
        18,
        Direction::OUT,
    );
    assert_eq!(
        data,
        [
            85, 83, 66, 67, 1, 0, 0, 0, 18, 0, 0, 0, 0, 0, 16, 0, 1, 2, 3, 4, 5, 6, 7, 8, 9,
            10, 11, 12, 13, 14, 15
        ]
    );
    // the second time the tag increases
    let data2 = get_command_block_wrapper(
        &mut framer,
        &[0, 1, 2, 3, 4, 5, 6, 7, 8, 9, 10, 11, 12, 13, 14, 15],
        18,
        Direction::OUT,
    );
    assert_eq!(
        data2,
        [
            85, 83, 66, 67, 2, 0, 0, 0, 18, 0, 0, 0, 0, 0, 16, 0, 1, 2, 3, 4, 5, 6, 7, 8, 9,
            10, 11, 12, 13, 14, 15
        ]
    )
}

#[test]
fn cbw_device_to_host_sets_direction_flag() {
    let mut framer = CommandFramer::new();
    let data = get_command_block_wrapper(&mut framer, &COMMAND, 0x0102_0304, Direction::IN);
    assert_eq!(data.len(), CBW_LEN);
    assert_eq!(&data[8..12], &[4, 3, 2, 1]);
    assert_eq!(data[12], 0x80);
    assert_eq!(data[13], 0);
    assert_eq!(data[14], 16);
    assert_eq!(framer.next_tag(), 2);
}

#[test]
fn cbw_repeat_differs_only_in_tag() {
    let mut framer = CommandFramer::new();
    let a = get_command_block_wrapper(&mut framer, &COMMAND, 18, Direction::OUT);
    let b = get_command_block_wrapper(&mut framer, &COMMAND, 18, Direction::OUT);
    assert_eq!(a[..4], b[..4]);
    assert_eq!(a[8..], b[8..]);
    let ta = u32::from_le_bytes([a[4], a[5], a[6], a[7]]);
    let tb = u32::from_le_bytes([b[4], b[5], b[6], b[7]]);
    assert_eq!(tb, ta + 1);
}

#[test]
fn csw_decodes_success() {
    let decoded = CommandStatusWrapper::decode(&csw(5, 0, 0));
    assert_eq!(
        decoded,
        Some(CommandStatusWrapper { tag: 5, data_residue: 0, status: CswStatus::Success })
    );
}

#[test]
fn csw_decodes_failed_and_phase_error() {
    let failed = CommandStatusWrapper::decode(&csw(0x0a0b_0c0d, 7, 1)).unwrap();
    assert_eq!(failed.tag, 0x0a0b_0c0d);
    assert_eq!(failed.data_residue, 7);
    assert_eq!(failed.status, CswStatus::Failed);
    let phase = CommandStatusWrapper::decode(&csw(1, 0, 2)).unwrap();
    assert_eq!(phase.status, CswStatus::PhaseError);
}

#[test]
fn csw_rejects_malformed_bytes() {
    let mut bad_signature = csw(5, 0, 0);
    bad_signature[3] = b'C';
    assert_eq!(CommandStatusWrapper::decode(&bad_signature), None);
    assert_eq!(CommandStatusWrapper::decode(&csw(5, 0, 3)), None);
    let short = &csw(5, 0, 0)[..12];
    assert_eq!(CommandStatusWrapper::decode(short), None);
    let mut long = csw(5, 0, 0);
    long.push(0);
    assert_eq!(CommandStatusWrapper::decode(&long), None);
}

#[test]
fn status_reader_clears_one_stall() {
    let mut reader = StatusReader::new(3);
    let mut clears = 0;
    let first = reader.on_read(Err(TransportError::Stall));
    if first == StatusStep::ClearHalt {
        clears += 1;
    }
    let second = reader.on_read(Ok(csw(9, 0, 0)));
    if second == StatusStep::ClearHalt {
        clears += 1;
    }
    assert_eq!(first, StatusStep::ClearHalt);
    assert_eq!(
        second,
        StatusStep::Done(CommandStatusWrapper {
            tag: 9,
            data_residue: 0,
            status: CswStatus::Success
        })
    );
    assert_eq!(clears, 1);
    assert_eq!(reader.halt_clears(), 1);
}

#[test]
fn status_reader_gives_up_after_its_budget() {
    let mut reader = StatusReader::new(2);
    assert_eq!(reader.on_read(Err(TransportError::Stall)), StatusStep::ClearHalt);
    assert_eq!(reader.on_read(Err(TransportError::Stall)), StatusStep::ClearHalt);
    assert_eq!(
        reader.on_read(Err(TransportError::Stall)),
        StatusStep::Failed(CommandError::StallRetriesExhausted)
    );
    assert_eq!(reader.halt_clears(), 2);
}

#[test]
fn status_reader_passes_other_errors_on() {
    let mut reader = StatusReader::new(2);
    assert_eq!(
        reader.on_read(Err(TransportError::Timeout)),
        StatusStep::Failed(CommandError::Transport(TransportError::Timeout))
    );
    assert_eq!(
        reader.on_read(Ok(vec![1, 2, 3])),
        StatusStep::Failed(CommandError::MalformedStatus)
    );
    assert_eq!(reader.halt_clears(), 0);
}

#[test]
fn write_transaction_runs_command_data_status() {
    let mut conn = ScsiOverUsbConnection::new(0x02, 0x81, 1000, 1);
    let mut tx = conn.write_command(&COMMAND, &[1, 2], &[3]);
    assert_eq!(tx.payload(), &[1, 2, 3]);
    assert_eq!(&tx.cbw()[8..12], &[3, 0, 0, 0]);
    assert_eq!(tx.cbw()[12], 0x00);
    assert_eq!(tx.step(), Step::SendCommand);
    tx.advance(Ok(Vec::new()));
    assert_eq!(tx.step(), Step::SendData);
    tx.advance(Ok(Vec::new()));
    assert_eq!(tx.step(), Step::ReceiveStatus);
    tx.advance(Err(TransportError::Stall));
    assert_eq!(tx.step(), Step::ClearHalt);
    tx.advance(Ok(Vec::new()));
    assert_eq!(tx.step(), Step::ReceiveStatus);
    tx.advance(Ok(csw(1, 0, 0)));
    assert_eq!(tx.step(), Step::Complete);
    tx.advance(Err(TransportError::Other));
    assert_eq!(tx.step(), Step::Complete);
    assert_eq!(conn.next_tag(), 2);
}

#[test]
fn read_transaction_returns_its_data() {
    let mut conn = ScsiOverUsbConnection::new(0x02, 0x81, 1000, 1);
    let mut tx = conn.read_command(&COMMAND, 4);
    assert_eq!(tx.cbw()[12], 0x80);
    assert_eq!(&tx.cbw()[8..12], &[4, 0, 0, 0]);
    tx.advance(Ok(Vec::new()));
    assert_eq!(tx.step(), Step::ReceiveData(4));
    tx.advance(Ok(vec![9, 8, 7, 6]));
    assert_eq!(tx.step(), Step::ReceiveStatus);
    tx.advance(Ok(csw(1, 0, 0)));
    assert_eq!(tx.step(), Step::Complete);
    assert_eq!(tx.data(), &[9, 8, 7, 6]);
}

#[test]
fn read_transaction_reports_size_mismatch() {
    let mut conn = ScsiOverUsbConnection::new(0x02, 0x81, 1000, 1);
    let mut tx = conn.read_command(&COMMAND, 4);
    tx.advance(Ok(Vec::new()));
    tx.advance(Ok(vec![9, 8]));
    tx.advance(Ok(csw(1, 2, 0)));
    assert_eq!(tx.step(), Step::Failed(CommandError::SizeMismatch));
}

#[test]
fn transaction_reports_device_failure() {
    let mut conn = ScsiOverUsbConnection::new(0x02, 0x81, 1000, 1);
    let mut tx = conn.write_command(&COMMAND, &[1], &[]);
    tx.advance(Ok(Vec::new()));
    tx.advance(Ok(Vec::new()));
    tx.advance(Ok(csw(1, 0, 1)));
    assert_eq!(tx.step(), Step::Failed(CommandError::UnexpectedStatus(CswStatus::Failed)));
}

#[test]
fn transaction_reports_transport_failure() {
    let mut conn = ScsiOverUsbConnection::new(0x02, 0x81, 1000, 1);
    let mut tx = conn.write_command(&COMMAND, &[1], &[]);
    tx.advance(Err(TransportError::Timeout));
    assert_eq!(tx.step(), Step::Failed(CommandError::Transport(TransportError::Timeout)));
    let mut tx = conn.write_command(&COMMAND, &[1], &[]);
    tx.advance(Ok(Vec::new()));
    tx.advance(Ok(Vec::new()));
    tx.advance(Ok(vec![0; 13]));
    assert_eq!(tx.step(), Step::Failed(CommandError::MalformedStatus));
    assert_eq!(conn.next_tag(), 3);
}

#[test]
fn transaction_stall_budget_runs_out() {
    let mut conn = ScsiOverUsbConnection::new(0x02, 0x81, 1000, 0);
    let mut tx = conn.write_command(&COMMAND, &[1], &[]);
    tx.advance(Ok(Vec::new()));
    tx.advance(Ok(Vec::new()));
    tx.advance(Err(TransportError::Stall));
    assert_eq!(tx.step(), Step::Failed(CommandError::StallRetriesExhausted));
}

#[test]
fn connection_keeps_its_settings() {
    let conn = ScsiOverUsbConnection::new(0x02, 0x81, 1000, 4);
    assert_eq!(conn.endpoint_out(), 0x02);
    assert_eq!(conn.endpoint_in(), 0x81);
    assert_eq!(conn.timeout_ms(), 1000);
    assert_eq!(conn.next_tag(), 1);
}

#[test]
fn empty_data_phase_goes_straight_to_status() {
    let mut conn = ScsiOverUsbConnection::new(0x02, 0x81, 1000, 1);
    let mut write = conn.write_command(&COMMAND, &[], &[]);
    assert_eq!(&write.cbw()[8..12], &[0, 0, 0, 0]);
    write.advance(Ok(Vec::new()));
    assert_eq!(write.step(), Step::ReceiveStatus);
    let mut read = conn.read_command(&COMMAND, 0);
    read.advance(Ok(Vec::new()));
    assert_eq!(read.step(), Step::ReceiveStatus);
    read.advance(Ok(csw(2, 0, 0)));
    assert_eq!(read.step(), Step::Complete);
    assert!(read.data().is_empty());
}
