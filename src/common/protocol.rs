//! Six-byte instrument frames: `[0x02, id, msb, lsb, bcc, 0x03]` with
//! `bcc = 0x02 ^ id ^ msb ^ lsb`.
use vstd::prelude::*;

verus! {

/// What a frame is about.
#[derive(Debug, Clone, Copy, PartialEq, Eq, Structural)]
pub enum Tag {
    ADC1,
    ADC2,
    ADC3,
    Control(Control),
    DigOut,
}

/// A decoded frame: a tag and a 16-bit value.
#[derive(Debug, Clone, Copy, PartialEq, Eq, Structural)]
pub struct Message {
    pub tag: Tag,
    pub value: u32,
}

/// The setpoint channels of the instrument, plus the emission-max report.
#[allow(non_camel_case_types)]
#[derive(Debug, Clone, Copy, PartialEq, Eq, Structural)]
pub enum Control {
    L2_SET,
    WEH_SET,
    L13_SET,
    SCR_SET,
    RET_SET_INT,
    BEAM_SET_INT,
    IFIL_SET1,
    EMI_SET,
    EMI_MAX,
}

/// Why a six-byte buffer is not a message.
#[derive(Debug, Clone, Copy, PartialEq, Eq, Structural)]
pub enum FrameError {
    /// The start or end marker is wrong.
    Malformed,
    /// The block check character does not match.
    ChecksumMismatch,
    /// The frame is well formed but its id is not in the table.
    UnknownId,
}

/// Why a message cannot be sent.
#[derive(Debug, Clone, Copy, PartialEq, Eq, Structural)]
pub enum EncodeError {
    /// The tag has no outbound id.
    NoOutboundId,
}

/// The three fields of a frame, before the id is looked up.
#[derive(Debug, Clone, Copy, PartialEq, Eq, Structural)]
pub struct RawMessage {
    pub id: u8,
    pub msb: u8,
    pub lsb: u8,
}

pub const FRAME_START: u8 = 0x02;

pub const FRAME_END: u8 = 0x03;

pub open spec fn checksum_of(id: u8, msb: u8, lsb: u8) -> u8 {
    FRAME_START ^ id ^ msb ^ lsb
}

/// The frame that carries `(id, msb, lsb)`.
pub open spec fn frame_of(id: u8, msb: u8, lsb: u8) -> [u8; 6] {
    [FRAME_START, id, msb, lsb, checksum_of(id, msb, lsb), FRAME_END]
}

/// The tag that an inbound id stands for.
pub open spec fn tag_of_id(id: u8) -> Option<Tag> {
    if id == 0x21 {
        Some(Tag::DigOut)
    } else if id == 0x31 {
        Some(Tag::Control(Control::L2_SET))
    } else if id == 0x32 {
        Some(Tag::Control(Control::WEH_SET))
    } else if id == 0x33 {
        Some(Tag::Control(Control::L13_SET))
    } else if id == 0x34 {
        Some(Tag::Control(Control::SCR_SET))
    } else if id == 0x35 {
        Some(Tag::Control(Control::RET_SET_INT))
    } else if id == 0x36 {
        Some(Tag::Control(Control::BEAM_SET_INT))
    } else if id == 0x37 {
        Some(Tag::Control(Control::IFIL_SET1))
    } else if id == 0x38 {
        Some(Tag::Control(Control::EMI_SET))
    } else if id == 0x39 {
        Some(Tag::Control(Control::EMI_MAX))
    } else if id == 0x42 {
        Some(Tag::ADC1)
    } else if id == 0x45 {
        Some(Tag::ADC2)
    } else if id == 0x48 {
        Some(Tag::ADC3)
    } else {
        None
    }
}

/// The id under which a tag arrives from the instrument.
pub open spec fn inbound_id(tag: Tag) -> u8 {
    match tag {
        Tag::DigOut => 0x21,
        Tag::Control(c) => match c {
            Control::L2_SET => 0x31,
            Control::WEH_SET => 0x32,
            Control::L13_SET => 0x33,
            Control::SCR_SET => 0x34,
            Control::RET_SET_INT => 0x35,
            Control::BEAM_SET_INT => 0x36,
            Control::IFIL_SET1 => 0x37,
            Control::EMI_SET => 0x38,
            Control::EMI_MAX => 0x39,
        },
        Tag::ADC1 => 0x42,
        Tag::ADC2 => 0x45,
        Tag::ADC3 => 0x48,
    }
}

/// Only the writable setpoint channels may be sent.
pub open spec fn has_outbound_id(tag: Tag) -> bool {
    match tag {
        Tag::Control(c) => c != Control::EMI_MAX,
        _ => false,
    }
}

pub open spec fn value_of(msb: u8, lsb: u8) -> u32 {
    (msb * 256 + lsb) as u32
}

pub open spec fn msb_of(value: u32) -> u8 {
    ((value / 256) % 256) as u8
}

pub open spec fn lsb_of(value: u32) -> u8 {
    (value % 256) as u8
}

/// Checks the markers and the checksum.
pub open spec fn parse_spec(b: Seq<u8>) -> Result<RawMessage, FrameError> {
    if b[0] != FRAME_START || b[5] != FRAME_END {
        Err(FrameError::Malformed)
    } else if b[4] != checksum_of(b[1], b[2], b[3]) {
        Err(FrameError::ChecksumMismatch)
    } else {
        Ok(RawMessage { id: b[1], msb: b[2], lsb: b[3] })
    }
}

/// What a received six-byte buffer decodes to.
pub open spec fn decode_spec(b: Seq<u8>) -> Result<Message, FrameError> {
    match parse_spec(b) {
        Err(e) => Err(e),
        Ok(raw) => match tag_of_id(raw.id) {
            None => Err(FrameError::UnknownId),
            Some(tag) => Ok(Message { tag, value: value_of(raw.msb, raw.lsb) }),
        },
    }
}

/// The frame that sends a message, where one exists.
pub open spec fn encode_spec(m: Message) -> Result<[u8; 6], EncodeError> {
    if has_outbound_id(m.tag) {
        Ok(frame_of(inbound_id(m.tag), msb_of(m.value), lsb_of(m.value)))
    } else {
        Err(EncodeError::NoOutboundId)
    }
}

impl RawMessage {
    /// The block check character of these fields.
    pub fn checksum(&self) -> (r: u8)
        ensures
            r == checksum_of(self.id, self.msb, self.lsb),
    {
        FRAME_START ^ self.id ^ self.msb ^ self.lsb
    }

    /// Checks the markers and the checksum of a received buffer.
    pub fn parse(bytes: &[u8; 6]) -> (r: Result<RawMessage, FrameError>)
        ensures
            r == parse_spec(bytes@),
    {
        if bytes[0] != FRAME_START || bytes[5] != FRAME_END {
            return Err(FrameError::Malformed);
        }
        let raw_msg = RawMessage { id: bytes[1], msb: bytes[2], lsb: bytes[3] };
        if raw_msg.checksum() == bytes[4] {
            Ok(raw_msg)
        } else {
            Err(FrameError::ChecksumMismatch)
        }
    }

    /// The complete frame, checksum included.
    pub fn to_bytes(&self) -> (r: [u8; 6])
        ensures
            r == frame_of(self.id, self.msb, self.lsb),
    {
        let bcc = self.checksum();
        [FRAME_START, self.id, self.msb, self.lsb, bcc, FRAME_END]
    }
}

/// The readbacks that the controller polls.
pub open spec fn is_readback(tag: Tag) -> bool {
    tag is ADC1 || tag is ADC2 || tag is ADC3
}

/// The frame that asks the instrument for a readback: the readback's id with
/// a zero value. It is a request, not a setpoint message, so it is built here
/// rather than by `Message::encode`.
pub fn readback_request(tag: Tag) -> (r: Option<[u8; 6]>)
    ensures
        r == (if is_readback(tag) {
            Some(frame_of(inbound_id(tag), 0, 0))
        } else {
            None::<[u8; 6]>
        }),
{
    let id: u8 = match tag {
        Tag::ADC1 => 0x42,
        Tag::ADC2 => 0x45,
        Tag::ADC3 => 0x48,
        _ => {
            return None;
        },
    };
    Some(RawMessage { id, msb: 0, lsb: 0 }.to_bytes())
}

impl Message {
    /// Looks the id up in the inbound table.
    pub fn from_raw(m: RawMessage) -> (r: Option<Message>)
        ensures
            r == (match tag_of_id(m.id) {
                Some(tag) => Some(Message { tag, value: value_of(m.msb, m.lsb) }),
                None => None::<Message>,
            }),
    {
        let tag = match m.id {
            0x21 => Tag::DigOut,
            0x31 => Tag::Control(Control::L2_SET),
            0x32 => Tag::Control(Control::WEH_SET),
            0x33 => Tag::Control(Control::L13_SET),
            0x34 => Tag::Control(Control::SCR_SET),
            0x35 => Tag::Control(Control::RET_SET_INT),
            0x36 => Tag::Control(Control::BEAM_SET_INT),
            0x37 => Tag::Control(Control::IFIL_SET1),
            0x38 => Tag::Control(Control::EMI_SET),
            0x39 => Tag::Control(Control::EMI_MAX),
            0x42 => Tag::ADC1,
            0x45 => Tag::ADC2,
            0x48 => Tag::ADC3,
            _ => {
                return None;
            },
        };
        Some(Message { tag, value: (m.msb as u32) * 256 + (m.lsb as u32) })
    }

    /// The fields that send this message, where the tag has an outbound id.
    pub fn to_raw(&self) -> (r: Option<RawMessage>)
        ensures
            r == (if has_outbound_id(self.tag) {
                Some(
                    RawMessage {
                        id: inbound_id(self.tag),
                        msb: msb_of(self.value),
                        lsb: lsb_of(self.value),
                    },
                )
            } else {
                None::<RawMessage>
            }),
    {
        let id: u8 = match self.tag {
            Tag::Control(Control::L2_SET) => 0x31,
            Tag::Control(Control::WEH_SET) => 0x32,
            Tag::Control(Control::L13_SET) => 0x33,
            Tag::Control(Control::SCR_SET) => 0x34,
            Tag::Control(Control::RET_SET_INT) => 0x35,
            Tag::Control(Control::BEAM_SET_INT) => 0x36,
            Tag::Control(Control::IFIL_SET1) => 0x37,
            Tag::Control(Control::EMI_SET) => 0x38,
            _ => {
                return None;
            },
        };
        Some(
            RawMessage {
                id,
                msb: (self.value / 256 % 256) as u8,
                lsb: (self.value % 256) as u8,
            },
        )
    }

    /// Decodes a received buffer, saying why it is rejected.
    pub fn decode(bytes: &[u8; 6]) -> (r: Result<Message, FrameError>)
        ensures
            r == decode_spec(bytes@),
    {
        match RawMessage::parse(bytes) {
            Err(e) => Err(e),
            Ok(raw) => match Message::from_raw(raw) {
                Some(m) => Ok(m),
                None => Err(FrameError::UnknownId),
            },
        }
    }

    /// Encodes a message for sending, or says that its tag cannot be sent.
    pub fn encode(&self) -> (r: Result<[u8; 6], EncodeError>)
        ensures
            r == encode_spec(*self),
    {
        match self.to_raw() {
            Some(raw) => Ok(raw.to_bytes()),
            None => Err(EncodeError::NoOutboundId),
        }
    }

    /// Decodes a received buffer; `None` where it is rejected.
    pub fn from_bytes(bytes: &[u8; 6]) -> (r: Option<Message>)
        ensures
            r == decode_spec(bytes@).ok(),
    {
        match Message::decode(bytes) {
            Ok(m) => Some(m),
            Err(_) => None,
        }
    }

    /// Encodes a message for sending; `None` where its tag cannot be sent.
    pub fn to_bytes(&self) -> (r: Option<[u8; 6]>)
        ensures
            r == encode_spec(*self).ok(),
    {
        match self.encode() {
            Ok(b) => Some(b),
            Err(_) => None,
        }
    }
}

/// A frame built from any fields passes the marker and checksum tests and
/// gives those fields back; where the id is in the table it decodes to that
/// tag with the value `msb * 256 + lsb`. Flipping any one bit of the check
/// byte makes both parsing and decoding fail on the checksum.
pub proof fn lemma_checksum_round_trip(id: u8, msb: u8, lsb: u8, bit: u8)
    requires
        bit < 8,
    ensures
        parse_spec(frame_of(id, msb, lsb)@) == Ok::<RawMessage, FrameError>(
            RawMessage { id, msb, lsb },
        ),
        tag_of_id(id) is Some ==> decode_spec(frame_of(id, msb, lsb)@) == Ok::<
            Message,
            FrameError,
        >(Message { tag: tag_of_id(id)->0, value: value_of(msb, lsb) }),
        msb_of(value_of(msb, lsb)) == msb && lsb_of(value_of(msb, lsb)) == lsb,
        parse_spec(
            frame_of(id, msb, lsb)@.update(4, checksum_of(id, msb, lsb) ^ (1u8 << bit)),
        ) == Err::<RawMessage, FrameError>(FrameError::ChecksumMismatch),
        decode_spec(
            frame_of(id, msb, lsb)@.update(4, checksum_of(id, msb, lsb) ^ (1u8 << bit)),
        ) == Err::<Message, FrameError>(FrameError::ChecksumMismatch),
{
    let c = checksum_of(id, msb, lsb);
    assert(c ^ (1u8 << bit) != c) by (bit_vector)
        requires
            bit < 8,
    ;
    let v = value_of(msb, lsb);
    assert(v == msb as int * 256 + lsb as int);
    assert(v / 256 == msb as int && v % 256 == lsb as int);
}

/// Every tag decodes from the frame built with its inbound id. A message whose
/// tag may be sent encodes, and its frame decodes back to the same message.
/// The readbacks, the digital outputs and the emission-max report have no
/// outbound id, and encoding them fails.
pub proof fn lemma_encode_decode_inverse(m: Message)
    requires
        m.value <= 0xFFFF,
    ensures
        decode_spec(frame_of(inbound_id(m.tag), msb_of(m.value), lsb_of(m.value))@) == Ok::<
            Message,
            FrameError,
        >(m),
        has_outbound_id(m.tag) ==> encode_spec(m) is Ok && decode_spec(encode_spec(m)->Ok_0@)
            == Ok::<Message, FrameError>(m),
        !has_outbound_id(m.tag) <==> (m.tag is ADC1 || m.tag is ADC2 || m.tag is ADC3
            || m.tag is DigOut || m.tag == Tag::Control(Control::EMI_MAX)),
        !has_outbound_id(m.tag) ==> encode_spec(m) == Err::<[u8; 6], EncodeError>(
            EncodeError::NoOutboundId,
        ),
{
    let hi = msb_of(m.value);
    let lo = lsb_of(m.value);
    assert(hi as int == m.value / 256);
    assert(lo as int == m.value % 256);
    assert(value_of(hi, lo) == m.value);
    lemma_checksum_round_trip(inbound_id(m.tag), hi, lo, 0);
    assert(tag_of_id(inbound_id(m.tag)) == Some(m.tag));
}

} // verus!
