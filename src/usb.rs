//! SCSI-style commands over a USB bulk-only transport: the command block
//! wrapper, the command status wrapper, and the steps of one transaction.

use vstd::prelude::*;
use crate::wire::{lemma_le32_round_trip, le32, le32_at, push_le32, read_le32};

verus! {

/// Length of a command block wrapper.
pub const CBW_LEN: usize = 31;

/// Length of a command status wrapper.
pub const CSW_LEN: usize = 13;

/// Direction of the data phase of a command.
#[allow(non_camel_case_types)]
#[derive(Clone, Copy, PartialEq, Eq, Debug, Structural)]
pub enum Direction {
    /// Device to host.
    IN,
    /// Host to device.
    OUT,
}

/// The flags byte of a command block wrapper: its top bit is set for a
/// device-to-host data phase.
pub open spec fn direction_flags(direction: Direction) -> u8 {
    match direction {
        Direction::IN => 0x80u8,
        Direction::OUT => 0x00u8,
    }
}

/// The tag that comes `n` tags after `tag`, counting modulo 2^32.
pub open spec fn tag_plus(tag: u32, n: nat) -> u32 {
    ((tag + n) % 0x1_0000_0000) as u32
}

/// Counting `a` tags and then `b` more is counting `a + b`.
pub proof fn lemma_tag_plus_add(tag: u32, a: nat, b: nat)
    ensures
        tag_plus(tag_plus(tag, a), b) == tag_plus(tag, a + b),
{
    let m: int = 0x1_0000_0000;
    vstd::arithmetic::div_mod::lemma_add_mod_noop(tag + a, b as int, m);
    vstd::arithmetic::div_mod::lemma_mod_twice(b as int, m);
    vstd::arithmetic::div_mod::lemma_add_mod_noop((tag + a) % m, b as int, m);
    vstd::arithmetic::div_mod::lemma_mod_twice(tag + a, m);
}

/// The bytes of a command block wrapper: signature "USBC", tag, transfer
/// length, flags, logical unit 0, command length 16 and the command itself.
pub open spec fn cbw_bytes(tag: u32, length: u32, direction: Direction, command: Seq<u8>) -> Seq<
    u8,
> {
    seq![0x55u8, 0x53u8, 0x42u8, 0x43u8] + le32(tag) + le32(length) + seq![
        direction_flags(direction),
        0u8,
        16u8,
    ] + command
}

/// The tag field of a command block wrapper.
pub open spec fn cbw_tag(cbw: Seq<u8>) -> u32 {
    le32_at(cbw, 4)
}

/// `cbw` with its tag field replaced by `tag`.
pub open spec fn with_tag(cbw: Seq<u8>, tag: u32) -> Seq<u8> {
    cbw.subrange(0, 4) + le32(tag) + cbw.subrange(8, cbw.len() as int)
}

/// A wrapper is 31 bytes long, its tag field reads back as its tag, and two
/// wrappers of one command differ in their tag field alone.
pub proof fn lemma_cbw_tag(tag: u32, other: u32, length: u32, direction: Direction, command: Seq<u8>)
    requires
        command.len() == 16,
    ensures
        cbw_bytes(tag, length, direction, command).len() == CBW_LEN,
        cbw_tag(cbw_bytes(tag, length, direction, command)) == tag,
        cbw_bytes(other, length, direction, command) == with_tag(
            cbw_bytes(tag, length, direction, command),
            other,
        ),
{
    let a = cbw_bytes(tag, length, direction, command);
    let b = cbw_bytes(other, length, direction, command);
    lemma_le32_round_trip(tag);
    assert(a.subrange(4, 8) =~= le32(tag));
    assert(b =~= with_tag(a, other));
}

/// Framing one command twice on the same framer gives two wrappers that
/// differ in their tag field alone, and the second tag is one more than the
/// first (short of the counter's wrap).
pub proof fn lemma_cbw_repeat(tag: u32, length: u32, direction: Direction, command: Seq<u8>)
    requires
        command.len() == 16,
        tag < u32::MAX,
    ensures
        ({
            let first = cbw_bytes(tag, length, direction, command);
            let second = cbw_bytes(tag_plus(tag, 1), length, direction, command);
            &&& second == with_tag(first, tag_plus(tag, 1))
            &&& cbw_tag(second) == cbw_tag(first) + 1
        }),
{
    lemma_cbw_tag(tag, tag_plus(tag, 1), length, direction, command);
    lemma_cbw_tag(tag_plus(tag, 1), tag, length, direction, command);
    assert(tag_plus(tag, 1) == tag + 1);
}

/// Hands out the tags of command block wrappers, one more for each wrapper.
pub struct CommandFramer {
    next_tag: u32,
}

impl CommandFramer {
    /// The tag that the next wrapper gets.
    pub closed spec fn tag(self) -> u32 {
        self.next_tag
    }

    /// A framer whose first wrapper gets tag 1.
    pub fn new() -> (r: CommandFramer)
        ensures
            r.tag() == 1,
    {
        CommandFramer { next_tag: 1 }
    }

    /// The tag that the next wrapper gets.
    pub fn next_tag(&self) -> (r: u32)
        ensures
            r == self.tag(),
    {
        self.next_tag
    }

    fn take_tag(&mut self) -> (r: u32)
        ensures
            r == old(self).tag(),
            final(self).tag() == tag_plus(old(self).tag(), 1),
    {
        let tag = self.next_tag;
        self.next_tag = if tag == u32::MAX {
            0
        } else {
            tag + 1
        };
        tag
    }
}

/// Builds the command block wrapper for `command_data`, with the next tag of
/// `framer`, which then moves on by one.
pub fn get_command_block_wrapper(
    framer: &mut CommandFramer,
    command_data: &[u8; 16],
    data_transfer_length: u32,
    direction: Direction,
) -> (r: Vec<u8>)
    ensures
        r@ == cbw_bytes(old(framer).tag(), data_transfer_length, direction, command_data@),
        final(framer).tag() == tag_plus(old(framer).tag(), 1),
{
    let flags: u8 = match direction {
        Direction::IN => 0x80,
        Direction::OUT => 0x00,
    };
    let tag = framer.take_tag();
    let mut out: Vec<u8> = Vec::with_capacity(CBW_LEN);
    out.push(0x55);
    out.push(0x53);
    out.push(0x42);
    out.push(0x43);
    push_le32(&mut out, tag);
    push_le32(&mut out, data_transfer_length);
    out.push(flags);
    out.push(0);
    out.push(16);
    let ghost head = out@;
    let mut i: usize = 0;
    while i < 16
        invariant
            i <= 16,
            command_data@.len() == 16,
            out@ == head + command_data@.subrange(0, i as int),
        decreases 16 - i,
    {
        out.push(command_data[i]);
        i += 1;
        assert(out@ =~= head + command_data@.subrange(0, i as int));
    }
    assert(command_data@.subrange(0, 16) =~= command_data@);
    assert(out@ =~= cbw_bytes(tag, data_transfer_length, direction, command_data@));
    out
}

/// Outcome of a status wrapper's status byte.
#[derive(Clone, Copy, PartialEq, Eq, Debug, Structural)]
pub enum CswStatus {
    Success,
    Failed,
    PhaseError,
}

/// The status that a status byte stands for, if any.
pub open spec fn csw_status_of(b: u8) -> Option<CswStatus> {
    if b == 0 {
        Some(CswStatus::Success)
    } else if b == 1 {
        Some(CswStatus::Failed)
    } else if b == 2 {
        Some(CswStatus::PhaseError)
    } else {
        None
    }
}

/// A decoded command status wrapper.
#[derive(Clone, Copy, PartialEq, Eq, Debug, Structural)]
pub struct CommandStatusWrapper {
    pub tag: u32,
    pub data_residue: u32,
    pub status: CswStatus,
}

/// The command status wrapper that `s` encodes: 13 bytes, signature "USBS",
/// tag and residue little-endian, and a known status byte.
pub open spec fn decode_csw(s: Seq<u8>) -> Option<CommandStatusWrapper> {
    if s.len() == CSW_LEN && s[0] == 0x55 && s[1] == 0x53 && s[2] == 0x42 && s[3] == 0x53
        && csw_status_of(s[12]) is Some {
        Some(
            CommandStatusWrapper {
                tag: le32_at(s, 4),
                data_residue: le32_at(s, 8),
                status: csw_status_of(s[12]).unwrap(),
            },
        )
    } else {
        None
    }
}

impl CommandStatusWrapper {
    /// Decodes a status wrapper; `None` where the bytes are not one.
    pub fn decode(bytes: &[u8]) -> (r: Option<CommandStatusWrapper>)
        ensures
            r == decode_csw(bytes@),
    {
        if bytes.len() != CSW_LEN || bytes[0] != 0x55 || bytes[1] != 0x53 || bytes[2] != 0x42
            || bytes[3] != 0x53 {
            return None;
        }
        let status = match bytes[12] {
            0 => CswStatus::Success,
            1 => CswStatus::Failed,
            2 => CswStatus::PhaseError,
            _ => {
                return None;
            },
        };
        Some(
            CommandStatusWrapper {
                tag: read_le32(bytes, 4),
                data_residue: read_le32(bytes, 8),
                status,
            },
        )
    }
}

/// How a bulk transfer or a halt-clear failed.
#[derive(Clone, Copy, PartialEq, Eq, Debug, Structural)]
pub enum TransportError {
    Timeout,
    /// The endpoint stalled.
    Stall,
    Other,
}

/// Why a command transaction failed.
#[derive(Clone, Copy, PartialEq, Eq, Debug, Structural)]
pub enum CommandError {
    /// A transfer failed.
    Transport(TransportError),
    /// The status endpoint kept stalling after as many halt-clears as allowed.
    StallRetriesExhausted,
    /// The status phase returned bytes that are no status wrapper.
    MalformedStatus,
    /// The device reported a status other than success.
    UnexpectedStatus(CswStatus),
    /// The data phase returned another number of bytes than the command asked for.
    SizeMismatch,
}

/// What a status reader asks for after a read.
#[derive(Clone, Copy, PartialEq, Eq, Debug, Structural)]
pub enum StatusStep {
    /// Clear the halt on the input endpoint, then read the status again.
    ClearHalt,
    /// The status wrapper was read.
    Done(CommandStatusWrapper),
    Failed(CommandError),
}

/// Reads the status wrapper of a command, clearing the halt of a stalled
/// input endpoint up to a bounded number of times.
pub struct StatusReader {
    halt_clears: u32,
    max_halt_clears: u32,
}

impl StatusReader {
    /// How many halt-clears this reader has asked for.
    pub closed spec fn clears(self) -> u32 {
        self.halt_clears
    }

    /// How many halt-clears this reader may ask for.
    pub closed spec fn limit(self) -> u32 {
        self.max_halt_clears
    }

    /// A reader that may ask for up to `max_halt_clears` halt-clears.
    pub fn new(max_halt_clears: u32) -> (r: StatusReader)
        ensures
            r.clears() == 0,
            r.limit() == max_halt_clears,
    {
        StatusReader { halt_clears: 0, max_halt_clears }
    }

    /// How many halt-clears this reader has asked for.
    pub fn halt_clears(&self) -> (r: u32)
        ensures
            r == self.clears(),
    {
        self.halt_clears
    }

    /// Takes the result of one read of the input endpoint and says what comes next.
    pub fn on_read(&mut self, read: Result<Vec<u8>, TransportError>) -> (r: StatusStep)
        ensures
            final(self).limit() == old(self).limit(),
            match read {
                Ok(bytes) => final(self).clears() == old(self).clears() && r == match decode_csw(
                    bytes@,
                ) {
                    Some(c) => StatusStep::Done(c),
                    None => StatusStep::Failed(CommandError::MalformedStatus),
                },
                Err(TransportError::Stall) => if old(self).clears() < old(self).limit() {
                    r == StatusStep::ClearHalt && final(self).clears() == old(self).clears() + 1
                } else {
                    r == StatusStep::Failed(CommandError::StallRetriesExhausted)
                        && final(self).clears() == old(self).clears()
                },
                Err(e) => r == StatusStep::Failed(CommandError::Transport(e))
                    && final(self).clears() == old(self).clears(),
            },
    {
        match read {
            Ok(bytes) => match CommandStatusWrapper::decode(bytes.as_slice()) {
                Some(c) => StatusStep::Done(c),
                None => StatusStep::Failed(CommandError::MalformedStatus),
            },
            Err(TransportError::Stall) => {
                if self.halt_clears < self.max_halt_clears {
                    self.halt_clears = self.halt_clears + 1;
                    StatusStep::ClearHalt
                } else {
                    StatusStep::Failed(CommandError::StallRetriesExhausted)
                }
            },
            Err(e) => StatusStep::Failed(CommandError::Transport(e)),
        }
    }
}

/// The transfer that a transaction waits for, or how it ended.
#[derive(Clone, Copy, PartialEq, Eq, Debug, Structural)]
pub enum Step {
    /// Write the command block wrapper to the output endpoint.
    SendCommand,
    /// Write the payload to the output endpoint.
    SendData,
    /// Read this many bytes of data from the input endpoint.
    ReceiveData(usize),
    /// Read the status wrapper from the input endpoint.
    ReceiveStatus,
    /// Clear the halt on the input endpoint.
    ClearHalt,
    /// The command succeeded.
    Complete,
    /// The command failed.
    Failed(CommandError),
}

/// A transaction as plain values.
pub ghost struct TransactionView {
    pub cbw: Seq<u8>,
    pub direction: Direction,
    /// What the data phase writes, for a host-to-device command.
    pub payload: Seq<u8>,
    /// How many bytes the data phase reads, for a device-to-host command.
    pub expected: usize,
    /// What the data phase read.
    pub data: Seq<u8>,
    pub halt_clears: u32,
    pub max_halt_clears: u32,
    pub step: Step,
}

impl TransactionView {
    /// A transaction that has not started.
    pub open spec fn fresh(
        cbw: Seq<u8>,
        direction: Direction,
        payload: Seq<u8>,
        expected: usize,
        max_halt_clears: u32,
    ) -> TransactionView {
        TransactionView {
            cbw,
            direction,
            payload,
            expected,
            data: seq![],
            halt_clears: 0,
            max_halt_clears,
            step: Step::SendCommand,
        }
    }

    /// The step after the command block wrapper: the data phase, or the
    /// status where the command moves no data.
    pub open spec fn data_phase(self) -> Step {
        match self.direction {
            Direction::IN => if self.expected == 0 {
                Step::ReceiveStatus
            } else {
                Step::ReceiveData(self.expected)
            },
            Direction::OUT => if self.payload.len() == 0 {
                Step::ReceiveStatus
            } else {
                Step::SendData
            },
        }
    }

    /// The step that follows a transfer that failed with `e`.
    pub open spec fn failed(self, e: TransportError) -> TransactionView {
        TransactionView { step: Step::Failed(CommandError::Transport(e)), ..self }
    }

    /// The transaction after the transfer of its current step came back with
    /// `outcome` (for a write or a halt-clear, the bytes of `Ok` are ignored).
    pub open spec fn after(self, outcome: Result<Vec<u8>, TransportError>) -> TransactionView {
        match self.step {
            Step::SendCommand => match outcome {
                Ok(_) => TransactionView { step: self.data_phase(), ..self },
                Err(e) => self.failed(e),
            },
            Step::SendData => match outcome {
                Ok(_) => TransactionView { step: Step::ReceiveStatus, ..self },
                Err(e) => self.failed(e),
            },
            Step::ClearHalt => match outcome {
                Ok(_) => TransactionView { step: Step::ReceiveStatus, ..self },
                Err(e) => self.failed(e),
            },
            Step::ReceiveData(_) => match outcome {
                Ok(bytes) => TransactionView { data: bytes@, step: Step::ReceiveStatus, ..self },
                Err(e) => self.failed(e),
            },
            Step::ReceiveStatus => match outcome {
                Ok(bytes) => TransactionView {
                    step: match decode_csw(bytes@) {
                        None => Step::Failed(CommandError::MalformedStatus),
                        Some(c) => if c.status != CswStatus::Success {
                            Step::Failed(CommandError::UnexpectedStatus(c.status))
                        } else if self.direction == Direction::IN && self.data.len()
                            != self.expected {
                            Step::Failed(CommandError::SizeMismatch)
                        } else {
                            Step::Complete
                        },
                    },
                    ..self
                },
                Err(TransportError::Stall) => if self.halt_clears < self.max_halt_clears {
                    TransactionView {
                        halt_clears: (self.halt_clears + 1) as u32,
                        step: Step::ClearHalt,
                        ..self
                    }
                } else {
                    TransactionView {
                        step: Step::Failed(CommandError::StallRetriesExhausted),
                        ..self
                    }
                },
                Err(e) => self.failed(e),
            },
            Step::Complete => self,
            Step::Failed(_) => self,
        }
    }
}

/// One command on the bulk transport: the command block wrapper, a data phase
/// in one direction, and the status wrapper. The caller performs the transfer
/// that `step` names and hands its outcome to `advance`, until the step is
/// `Complete` or `Failed`.
pub struct Transaction {
    cbw: Vec<u8>,
    direction: Direction,
    payload: Vec<u8>,
    expected: usize,
    data: Vec<u8>,
    status: StatusReader,
    step: Step,
}

impl View for Transaction {
    type V = TransactionView;

    closed spec fn view(&self) -> TransactionView {
        TransactionView {
            cbw: self.cbw@,
            direction: self.direction,
            payload: self.payload@,
            expected: self.expected,
            data: self.data@,
            halt_clears: self.status.clears(),
            max_halt_clears: self.status.limit(),
            step: self.step,
        }
    }
}

impl Transaction {
    fn new(
        cbw: Vec<u8>,
        direction: Direction,
        payload: Vec<u8>,
        expected: usize,
        max_halt_clears: u32,
    ) -> (r: Transaction)
        ensures
            r@ == TransactionView::fresh(cbw@, direction, payload@, expected, max_halt_clears),
    {
        Transaction {
            cbw,
            direction,
            payload,
            expected,
            data: Vec::new(),
            status: StatusReader::new(max_halt_clears),
            step: Step::SendCommand,
        }
    }

    /// The transfer to perform next, or how the transaction ended.
    pub fn step(&self) -> (r: Step)
        ensures
            r == self@.step,
    {
        self.step
    }

    /// The command block wrapper.
    pub fn cbw(&self) -> (r: &[u8])
        ensures
            r@ == self@.cbw,
    {
        self.cbw.as_slice()
    }

    /// What the data phase writes.
    pub fn payload(&self) -> (r: &[u8])
        ensures
            r@ == self@.payload,
    {
        self.payload.as_slice()
    }

    /// What the data phase read.
    pub fn data(&self) -> (r: &[u8])
        ensures
            r@ == self@.data,
    {
        self.data.as_slice()
    }

    /// Moves on with the outcome of the transfer that `step` named.
    pub fn advance(&mut self, outcome: Result<Vec<u8>, TransportError>)
        ensures
            final(self)@ == old(self)@.after(outcome),
    {
        match self.step {
            Step::SendCommand => {
                self.step = match outcome {
                    Ok(_) => match self.direction {
                        Direction::IN => if self.expected == 0 {
                            Step::ReceiveStatus
                        } else {
                            Step::ReceiveData(self.expected)
                        },
                        Direction::OUT => if self.payload.len() == 0 {
                            Step::ReceiveStatus
                        } else {
                            Step::SendData
                        },
                    },
                    Err(e) => Step::Failed(CommandError::Transport(e)),
                };
            },
            Step::SendData | Step::ClearHalt => {
                self.step = match outcome {
                    Ok(_) => Step::ReceiveStatus,
                    Err(e) => Step::Failed(CommandError::Transport(e)),
                };
            },
            Step::ReceiveData(_) => {
                match outcome {
                    Ok(bytes) => {
                        self.data = bytes;
                        self.step = Step::ReceiveStatus;
                    },
                    Err(e) => {
                        self.step = Step::Failed(CommandError::Transport(e));
                    },
                }
            },
            Step::ReceiveStatus => {
                let next = match self.status.on_read(outcome) {
                    StatusStep::ClearHalt => Step::ClearHalt,
                    StatusStep::Done(c) => match c.status {
                        CswStatus::Success => {
                            let short = match self.direction {
                                Direction::IN => self.data.len() != self.expected,
                                Direction::OUT => false,
                            };
                            if short {
                                Step::Failed(CommandError::SizeMismatch)
                            } else {
                                Step::Complete
                            }
                        },
                        other => Step::Failed(CommandError::UnexpectedStatus(other)),
                    },
                    StatusStep::Failed(e) => Step::Failed(e),
                };
                self.step = next;
            },
            Step::Complete | Step::Failed(_) => {},
        }
    }
}

/// A channel as plain values.
pub ghost struct ConnectionView {
    pub endpoint_out: u8,
    pub endpoint_in: u8,
    pub timeout_ms: u32,
    /// How many times one status read may clear a stalled input endpoint.
    pub max_halt_clears: u32,
    /// The tag of the next command block wrapper.
    pub tag: u32,
}

impl ConnectionView {
    /// The same channel after `n` more command block wrappers.
    pub open spec fn after_commands(self, n: nat) -> ConnectionView {
        ConnectionView { tag: tag_plus(self.tag, n), ..self }
    }
}

/// A channel for commands over the bulk transport of one device. It owns the
/// tags of its command block wrappers and the endpoints and timeout that its
/// transfers use.
pub struct ScsiOverUsbConnection {
    endpoint_out: u8,
    endpoint_in: u8,
    timeout_ms: u32,
    max_halt_clears: u32,
    framer: CommandFramer,
}

impl View for ScsiOverUsbConnection {
    type V = ConnectionView;

    closed spec fn view(&self) -> ConnectionView {
        ConnectionView {
            endpoint_out: self.endpoint_out,
            endpoint_in: self.endpoint_in,
            timeout_ms: self.timeout_ms,
            max_halt_clears: self.max_halt_clears,
            tag: self.framer.tag(),
        }
    }
}

impl ScsiOverUsbConnection {
    /// A channel whose first command gets tag 1.
    pub fn new(endpoint_out: u8, endpoint_in: u8, timeout_ms: u32, max_halt_clears: u32) -> (r:
        ScsiOverUsbConnection)
        ensures
            r@ == (ConnectionView { endpoint_out, endpoint_in, timeout_ms, max_halt_clears, tag: 1 }),
    {
        ScsiOverUsbConnection {
            endpoint_out,
            endpoint_in,
            timeout_ms,
            max_halt_clears,
            framer: CommandFramer::new(),
        }
    }

    pub fn endpoint_out(&self) -> (r: u8)
        ensures
            r == self@.endpoint_out,
    {
        self.endpoint_out
    }

    pub fn endpoint_in(&self) -> (r: u8)
        ensures
            r == self@.endpoint_in,
    {
        self.endpoint_in
    }

    pub fn timeout_ms(&self) -> (r: u32)
        ensures
            r == self@.timeout_ms,
    {
        self.timeout_ms
    }

    /// The tag of the next command block wrapper.
    pub fn next_tag(&self) -> (r: u32)
        ensures
            r == self@.tag,
    {
        self.framer.next_tag()
    }

    /// Begins a command that reads `length` bytes from the device.
    pub fn read_command(&mut self, command: &[u8; 16], length: u32) -> (r: Transaction)
        ensures
            r@ == TransactionView::fresh(
                cbw_bytes(old(self)@.tag, length, Direction::IN, command@),
                Direction::IN,
                seq![],
                length as usize,
                old(self)@.max_halt_clears,
            ),
            final(self)@ == old(self)@.after_commands(1),
    {
        let cbw = get_command_block_wrapper(&mut self.framer, command, length, Direction::IN);
        Transaction::new(cbw, Direction::IN, Vec::new(), length as usize, self.max_halt_clears)
    }

    /// Begins a command that writes the encoded `value` followed by `data` to
    /// the device.
    pub fn write_command(&mut self, command: &[u8; 16], value: &[u8], data: &[u8]) -> (r:
        Transaction)
        requires
            value@.len() + data@.len() <= u32::MAX,
        ensures
            r@ == TransactionView::fresh(
                cbw_bytes(
                    old(self)@.tag,
                    (value@.len() + data@.len()) as u32,
                    Direction::OUT,
                    command@,
                ),
                Direction::OUT,
                value@ + data@,
                0,
                old(self)@.max_halt_clears,
            ),
            final(self)@ == old(self)@.after_commands(1),
    {
        let mut bulk: Vec<u8> = Vec::with_capacity(value.len() + data.len());
        bulk.extend_from_slice(value);
        bulk.extend_from_slice(data);
        assert(bulk@ =~= value@ + data@);
        let length = bulk.len() as u32;
        let cbw = get_command_block_wrapper(&mut self.framer, command, length, Direction::OUT);
        Transaction::new(cbw, Direction::OUT, bulk, 0, self.max_halt_clears)
    }
}

} // verus!
