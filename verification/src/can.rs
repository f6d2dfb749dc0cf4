use crate::idle_mode::IdleMode;
use vstd::prelude::*;

verus! {

/// Largest standard (11-bit) identifier.
pub const STANDARD_ID_MAX: u16 = 0x7FF;

/// Largest extended (29-bit) identifier.
pub const EXTENDED_ID_MAX: u32 = 0x1FFF_FFFF;

/// Command field of a heartbeat request (remote frame).
pub const CMD_HEARTBEAT: u16 = 0;

/// Command field of a stop request (remote frame).
pub const CMD_STOP: u16 = 1;

/// Command field of a setpoint frame.
pub const CMD_SETPOINT: u16 = 2;

/// Command field of an inversion frame.
pub const CMD_INVERT: u16 = 3;

/// Command field of a current-limit frame.
pub const CMD_CURRENT_LIMIT: u16 = 4;

/// Command field of an idle-mode frame.
pub const CMD_IDLE_MODE: u16 = 5;

/// Command field of an outgoing fault report.
pub const EVENT_ERROR: u16 = 0;

/// Command field of an outgoing status update.
pub const EVENT_UPDATE: u16 = 1;

/// Command field of an outgoing overcurrent report.
pub const EVENT_OVERCURRENT: u16 = 2;

/// Identifier of a frame: the 11-bit standard family or the 29-bit extended one.
#[derive(Clone, Copy, Debug, PartialEq, Eq, Structural)]
pub enum FrameId {
    Standard(u16),
    Extended(u32),
}

impl FrameId {
    /// The identifier fits its family's width.
    pub open spec fn wf(self) -> bool {
        match self {
            FrameId::Standard(raw) => raw <= STANDARD_ID_MAX,
            FrameId::Extended(raw) => raw <= EXTENDED_ID_MAX,
        }
    }

    /// The eleven most significant identifier bits: the whole of a standard
    /// identifier, the base part of an extended one.
    pub open spec fn base(self) -> u16 {
        match self {
            FrameId::Standard(raw) => raw,
            FrameId::Extended(raw) => (raw / 0x4_0000) as u16,
        }
    }

    /// Computes [`FrameId::base`].
    pub fn base_id(self) -> (base: u16)
        requires
            self.wf(),
        ensures
            base == self.base(),
            base <= STANDARD_ID_MAX,
    {
        match self {
            FrameId::Standard(raw) => raw,
            FrameId::Extended(raw) => (raw / 0x4_0000) as u16,
        }
    }
}

/// A frame as it travels on the bus, held as plain values.
///
/// A data frame carries `dlc` payload bytes at the front of `data`; a remote
/// frame carries none, whatever its `dlc`.
#[derive(Clone, Copy, Debug, PartialEq, Eq)]
pub struct RawFrame {
    pub id: FrameId,
    pub remote: bool,
    pub dlc: u8,
    pub data: [u8; 8],
}

/// The command field of a standard identifier: the byte above the node id.
pub open spec fn command_of(raw: u16) -> u16 {
    ((raw / 256) % 256) as u16
}

/// The node field of a standard identifier: its low byte.
pub open spec fn node_of(raw: u16) -> u16 {
    (raw % 256) as u16
}

/// The 16-bit signed value whose little-endian bytes are `lo`, `hi`.
pub open spec fn i16_from_le(lo: u8, hi: u8) -> i16 {
    let unsigned: int = lo + 256 * hi;
    if unsigned < 32768 {
        unsigned as i16
    } else {
        (unsigned - 65536) as i16
    }
}

/// The little-endian bytes of a 16-bit signed value.
pub open spec fn i16_le_bytes(value: i16) -> Seq<u8> {
    let unsigned: int = if value < 0 {
        value + 65536
    } else {
        value as int
    };
    seq![(unsigned % 256) as u8, (unsigned / 256) as u8]
}

/// The little-endian bytes of a 32-bit word.
pub open spec fn u32_le_bytes(word: u32) -> Seq<u8> {
    seq![
        (word % 256) as u8,
        (word / 256 % 256) as u8,
        (word / 65536 % 256) as u8,
        (word / 16777216) as u8,
    ]
}

/// Reading back the bytes of a 16-bit value gives the value.
pub proof fn lemma_i16_le_round_trip(value: i16)
    ensures
        i16_le_bytes(value).len() == 2,
        i16_from_le(i16_le_bytes(value)[0], i16_le_bytes(value)[1]) == value,
{
}

impl RawFrame {
    /// Identifier in range and at most eight payload bytes.
    pub open spec fn wf(self) -> bool {
        self.id.wf() && self.dlc <= 8
    }

    /// The payload bytes that the frame carries.
    pub open spec fn payload(self) -> Seq<u8> {
        if self.remote || self.dlc > 8 {
            Seq::empty()
        } else {
            self.data@.subrange(0, self.dlc as int)
        }
    }

    /// `payload` followed by zeros up to eight bytes.
    pub open spec fn padded(payload: Seq<u8>) -> Seq<u8> {
        Seq::new(
            8,
            |i: int|
                if i < payload.len() {
                    payload[i]
                } else {
                    0u8
                },
        )
    }

    /// A data frame with the given payload, or `None` where the identifier is
    /// out of range or the payload longer than eight bytes.
    pub fn new_data(id: FrameId, payload: &[u8]) -> (frame: Option<RawFrame>)
        ensures
            frame is Some <==> id.wf() && payload@.len() <= 8,
            frame matches Some(f) ==> f.id == id && !f.remote && f.dlc == payload@.len()
                && f.data@ == Self::padded(payload@) && f.payload() == payload@ && f.wf(),
    {
        let in_range = match id {
            FrameId::Standard(raw) => raw <= STANDARD_ID_MAX,
            FrameId::Extended(raw) => raw <= EXTENDED_ID_MAX,
        };
        if !in_range || payload.len() > 8 {
            return None;
        }
        let mut data: [u8; 8] = [0u8; 8];
        let mut i: usize = 0;
        while i < payload.len()
            invariant
                i <= payload@.len() <= 8,
                forall|k: int| 0 <= k < i ==> data@[k] == payload@[k],
                forall|k: int| i <= k < 8 ==> data@[k] == 0u8,
            decreases payload@.len() - i,
        {
            data[i] = payload[i];
            i += 1;
        }
        let frame = RawFrame { id, remote: false, dlc: payload.len() as u8, data };
        proof {
            assert(frame.data@ =~= Self::padded(payload@));
            assert(frame.payload() =~= payload@);
        }
        Some(frame)
    }

    /// A remote frame that asks for `dlc` bytes, or `None` where the identifier
    /// is out of range or `dlc` above eight.
    pub fn new_remote(id: FrameId, dlc: u8) -> (frame: Option<RawFrame>)
        ensures
            frame is Some <==> id.wf() && dlc <= 8,
            frame matches Some(f) ==> f.id == id && f.remote && f.dlc == dlc && f.data@
                == Self::padded(Seq::empty()) && f.wf(),
    {
        let in_range = match id {
            FrameId::Standard(raw) => raw <= STANDARD_ID_MAX,
            FrameId::Extended(raw) => raw <= EXTENDED_ID_MAX,
        };
        if !in_range || dlc > 8 {
            return None;
        }
        let frame = RawFrame { id, remote: true, dlc, data: [0u8; 8] };
        proof {
            assert(frame.data@ =~= Self::padded(Seq::empty()));
        }
        Some(frame)
    }

    /// The frame's place in bus arbitration: of two frames that contend, the
    /// one with the lower value is sent first. The base identifier weighs
    /// most; on equal base a standard frame goes before an extended one, and
    /// on equal identifiers a data frame goes before a remote one.
    pub open spec fn arbitration(self) -> nat {
        let remote_bit: nat = if self.remote {
            1
        } else {
            0
        };
        match self.id {
            FrameId::Standard(raw) => (raw as nat) * 0x10_0000 + remote_bit,
            FrameId::Extended(raw) => ((raw / 0x4_0000) as nat) * 0x10_0000 + 0x8_0000 + ((raw
                % 0x4_0000) as nat) * 2 + remote_bit,
        }
    }

    /// Computes [`RawFrame::arbitration`].
    pub fn arbitration_value(&self) -> (value: u64)
        ensures
            value == self.arbitration(),
    {
        let remote_bit: u64 = if self.remote {
            1
        } else {
            0
        };
        match self.id {
            FrameId::Standard(raw) => (raw as u64) * 0x10_0000 + remote_bit,
            FrameId::Extended(raw) => ((raw / 0x4_0000) as u64) * 0x10_0000 + 0x8_0000 + ((raw
                % 0x4_0000) as u64) * 2 + remote_bit,
        }
    }
}

/// Why a received frame is not a command.
#[derive(Clone, Copy, Debug, PartialEq, Eq)]
pub enum FrameConversionError {
    /// A known family of identifier, but a remote frame where a data frame is
    /// due.
    FrameType,
    /// The frame is well-formed but its content is not acceptable.
    InvalidFrame(&'static str),
    /// Fewer payload bytes than the command needs.
    TooShort { minimum: u8, actual: u8 },
    /// The identifier is not of the standard family.
    InvalidIdFormat,
    /// No command has this number.
    InvalidCommand { cmd: u16 },
}

impl FrameConversionError {
    /// The error in words, without its numbers.
    pub open spec fn summary_text(self) -> &'static str {
        match self {
            FrameConversionError::FrameType => "Frame type is incorrect (remote vs data frames)",
            FrameConversionError::InvalidFrame(_) => "Invalid frame",
            FrameConversionError::TooShort { .. } => "Data frame too short",
            FrameConversionError::InvalidIdFormat => "Invalid id format",
            FrameConversionError::InvalidCommand { .. } => "Invalid command",
        }
    }

    /// Computes [`FrameConversionError::summary_text`].
    pub fn summary(&self) -> (text: &'static str)
        ensures
            text == self.summary_text(),
    {
        match self {
            FrameConversionError::FrameType => "Frame type is incorrect (remote vs data frames)",
            FrameConversionError::InvalidFrame(_) => "Invalid frame",
            FrameConversionError::TooShort { .. } => "Data frame too short",
            FrameConversionError::InvalidIdFormat => "Invalid id format",
            FrameConversionError::InvalidCommand { .. } => "Invalid command",
        }
    }
}

/// A command received from the bus.
#[derive(Clone, Copy, Debug, PartialEq, Eq, Structural)]
pub enum IncomingFrame {
    Setpoint(i16),
    SetCurrentLimit(u8),
    Invert(bool),
    SetIdleMode(IdleMode),
    HeartBeat,
    Stop,
}

/// The fewest payload bytes that a data-frame command needs; `None` where no
/// data-frame command has this number.
pub open spec fn minimum_dlc(cmd: u16) -> Option<u8> {
    if cmd == CMD_SETPOINT {
        Some(2u8)
    } else if cmd == CMD_INVERT || cmd == CMD_CURRENT_LIMIT || cmd == CMD_IDLE_MODE {
        Some(1u8)
    } else {
        None
    }
}

/// What a data-frame command with enough payload means.
pub open spec fn decode_payload(cmd: u16, data: Seq<u8>) -> Result<
    IncomingFrame,
    FrameConversionError,
> {
    if cmd == CMD_SETPOINT {
        Ok(IncomingFrame::Setpoint(i16_from_le(data[0], data[1])))
    } else if cmd == CMD_INVERT {
        Ok(IncomingFrame::Invert(data[0] > 0))
    } else if cmd == CMD_CURRENT_LIMIT {
        Ok(IncomingFrame::SetCurrentLimit(data[0]))
    } else {
        match IdleMode::of_byte(data[0]) {
            Some(mode) => Ok(IncomingFrame::SetIdleMode(mode)),
            None => Err(FrameConversionError::InvalidFrame("Unknown idle mode")),
        }
    }
}

/// The command that a frame stands for, or the reason why it stands for none.
pub open spec fn decode(frame: RawFrame) -> Result<IncomingFrame, FrameConversionError> {
    match frame.id {
        FrameId::Extended(_) => Err(FrameConversionError::InvalidIdFormat),
        FrameId::Standard(raw) => {
            let cmd = command_of(raw);
            if frame.remote {
                if cmd == CMD_HEARTBEAT {
                    Ok(IncomingFrame::HeartBeat)
                } else if cmd == CMD_STOP {
                    Ok(IncomingFrame::Stop)
                } else {
                    Err(FrameConversionError::FrameType)
                }
            } else {
                match minimum_dlc(cmd) {
                    None => Err(FrameConversionError::InvalidCommand { cmd }),
                    Some(minimum) => if frame.dlc < minimum {
                        Err(FrameConversionError::TooShort { minimum, actual: frame.dlc })
                    } else {
                        decode_payload(cmd, frame.data@)
                    },
                }
            }
        },
    }
}

impl IncomingFrame {
    /// Decodes a received frame. The node field of the identifier is not
    /// looked at: the acceptance filter has matched it already.
    pub fn try_from(frame: RawFrame) -> (result: Result<IncomingFrame, FrameConversionError>)
        ensures
            result == decode(frame),
    {
        let raw = match frame.id {
            FrameId::Standard(raw) => raw,
            FrameId::Extended(_) => {
                return Err(FrameConversionError::InvalidIdFormat);
            },
        };
        let cmd: u16 = (raw / 256) % 256;
        if frame.remote {
            if cmd == CMD_HEARTBEAT {
                Ok(IncomingFrame::HeartBeat)
            } else if cmd == CMD_STOP {
                Ok(IncomingFrame::Stop)
            } else {
                Err(FrameConversionError::FrameType)
            }
        } else if cmd == CMD_SETPOINT {
            if frame.dlc < 2 {
                return Err(FrameConversionError::TooShort { minimum: 2, actual: frame.dlc });
            }
            let unsigned: i32 = frame.data[0] as i32 + 256 * (frame.data[1] as i32);
            let value: i16 = if unsigned < 32768 {
                unsigned as i16
            } else {
                (unsigned - 65536) as i16
            };
            Ok(IncomingFrame::Setpoint(value))
        } else if cmd == CMD_INVERT || cmd == CMD_CURRENT_LIMIT || cmd == CMD_IDLE_MODE {
            if frame.dlc < 1 {
                return Err(FrameConversionError::TooShort { minimum: 1, actual: frame.dlc });
            }
            let byte: u8 = frame.data[0];
            if cmd == CMD_INVERT {
                Ok(IncomingFrame::Invert(byte > 0))
            } else if cmd == CMD_CURRENT_LIMIT {
                Ok(IncomingFrame::SetCurrentLimit(byte))
            } else {
                match IdleMode::from_byte(byte) {
                    Some(mode) => Ok(IncomingFrame::SetIdleMode(mode)),
                    None => Err(FrameConversionError::InvalidFrame("Unknown idle mode")),
                }
            }
        } else {
            Err(FrameConversionError::InvalidCommand { cmd })
        }
    }
}

/// Every data frame that carries the setpoint command and at least two bytes
/// decodes to the setpoint whose little-endian bytes are its first two.
pub proof fn lemma_setpoint_frames_decode(frame: RawFrame, raw: u16)
    requires
        frame.id == FrameId::Standard(raw),
        !frame.remote,
        command_of(raw) == CMD_SETPOINT,
        frame.dlc >= 2,
    ensures
        decode(frame) == Ok::<IncomingFrame, FrameConversionError>(
            IncomingFrame::Setpoint(i16_from_le(frame.data@[0], frame.data@[1])),
        ),
{
}

/// Every 16-bit value, the two extremes included, is the setpoint of the
/// frame that carries its bytes.
pub proof fn lemma_every_setpoint_is_reachable(frame: RawFrame, raw: u16, value: i16)
    requires
        frame.id == FrameId::Standard(raw),
        !frame.remote,
        command_of(raw) == CMD_SETPOINT,
        frame.dlc >= 2,
        frame.data@[0] == i16_le_bytes(value)[0],
        frame.data@[1] == i16_le_bytes(value)[1],
    ensures
        decode(frame) == Ok::<IncomingFrame, FrameConversionError>(IncomingFrame::Setpoint(value)),
{
    lemma_i16_le_round_trip(value);
}

/// A data frame shorter than its command's minimum is refused as too short,
/// with the minimum and the length it came with.
pub proof fn lemma_short_frames_are_refused(frame: RawFrame, raw: u16, minimum: u8)
    requires
        frame.id == FrameId::Standard(raw),
        !frame.remote,
        minimum_dlc(command_of(raw)) == Some(minimum),
        frame.dlc < minimum,
    ensures
        decode(frame) == Err::<IncomingFrame, FrameConversionError>(
            FrameConversionError::TooShort { minimum, actual: frame.dlc },
        ),
{
}

/// An event that the node reports on the bus. Measured currents are held as
/// the bit patterns of their single-precision values.
#[derive(Clone, Copy, Debug, PartialEq, Eq, Structural)]
pub enum OutgoingFrame {
    Update { current_now: u32, duty_now: i16 },
    Overcurrent { current_now: u32, current_limit: u32 },
    Error(u8),
}

impl OutgoingFrame {
    /// The command field under which the event is sent.
    pub open spec fn command(self) -> u16 {
        match self {
            OutgoingFrame::Update { .. } => EVENT_UPDATE,
            OutgoingFrame::Overcurrent { .. } => EVENT_OVERCURRENT,
            OutgoingFrame::Error(_) => EVENT_ERROR,
        }
    }

    /// The payload bytes of the event: a status update carries the duty and
    /// then the current, little end first; a fault carries its code; an
    /// overcurrent report carries nothing.
    pub open spec fn payload(self) -> Seq<u8> {
        match self {
            OutgoingFrame::Update { current_now, duty_now } => i16_le_bytes(duty_now)
                + u32_le_bytes(current_now),
            OutgoingFrame::Overcurrent { .. } => Seq::empty(),
            OutgoingFrame::Error(code) => seq![code],
        }
    }

    /// `frame` is this event as sent by the node whose identifier is `id`: a
    /// standard data frame whose identifier is the node's base identifier with
    /// the command field set over it.
    pub open spec fn encodes_as(self, id: FrameId, frame: RawFrame) -> bool {
        &&& frame.id == FrameId::Standard(id.base() | (self.command() * 256) as u16)
        &&& !frame.remote
        &&& frame.dlc == self.payload().len()
        &&& frame.data@ == RawFrame::padded(self.payload())
    }
}

/// Conversion into a frame that needs the sender's identifier.
pub trait IntoWithId<T>: Sized {
    /// `out` is a result of the conversion.
    spec fn converts_to(self, id: FrameId, out: T) -> bool;

    fn into_with_id(self, id: FrameId) -> (out: T)
        requires
            id.wf(),
        ensures
            self.converts_to(id, out),
    ;
}

impl IntoWithId<RawFrame> for OutgoingFrame {
    open spec fn converts_to(self, id: FrameId, out: RawFrame) -> bool {
        self.encodes_as(id, out) && out.wf() && out.payload() == self.payload()
    }

    fn into_with_id(self, id: FrameId) -> (out: RawFrame) {
        let base: u16 = id.base_id();
        match self {
            OutgoingFrame::Update { current_now, duty_now } => {
                let unsigned: i32 = if duty_now < 0 {
                    duty_now as i32 + 65536
                } else {
                    duty_now as i32
                };
                let data: [u8; 8] = [
                    (unsigned % 256) as u8,
                    (unsigned / 256) as u8,
                    (current_now % 256) as u8,
                    (current_now / 256 % 256) as u8,
                    (current_now / 65536 % 256) as u8,
                    (current_now / 16777216) as u8,
                    0,
                    0,
                ];
                let new_id: u16 = base | 0x100;
                let out = RawFrame { id: FrameId::Standard(new_id), remote: false, dlc: 6, data };
                proof {
                    assert(base <= 0x7FF ==> (base | 0x100) <= 0x7FF) by (bit_vector);
                    assert(out.data@ =~= RawFrame::padded(self.payload()));
                    assert(out.payload() =~= self.payload());
                }
                out
            },
            OutgoingFrame::Overcurrent { .. } => {
                let new_id: u16 = base | 0x200;
                let out = RawFrame {
                    id: FrameId::Standard(new_id),
                    remote: false,
                    dlc: 0,
                    data: [0u8; 8],
                };
                proof {
                    assert(base <= 0x7FF ==> (base | 0x200) <= 0x7FF) by (bit_vector);
                    assert(out.data@ =~= RawFrame::padded(self.payload()));
                    assert(out.payload() =~= self.payload());
                }
                out
            },
            OutgoingFrame::Error(code) => {
                let new_id: u16 = base | 0x000;
                let out = RawFrame {
                    id: FrameId::Standard(new_id),
                    remote: false,
                    dlc: 1,
                    data: [code, 0, 0, 0, 0, 0, 0, 0],
                };
                proof {
                    assert((base | 0x000) == base) by (bit_vector);
                    assert(out.data@ =~= RawFrame::padded(self.payload()));
                    assert(out.payload() =~= self.payload());
                }
                out
            },
        }
    }
}

} // verus!
