use leed_controller::common::leed_controller::LEEDController;
use leed_controller::common::protocol::{
    readback_request, Control, EncodeError, FrameError, Message, RawMessage, Tag,
};
use std::collections::VecDeque;

fn frame(id: u8, msb: u8, lsb: u8) -> [u8; 6] {
    [0x02, id, msb, lsb, 0x02 ^ id ^ msb ^ lsb, 0x03]
}

const WRITABLE: [(Control, u8); 8] = [
    (Control::L2_SET, 0x31),
    (Control::WEH_SET, 0x32),
    (Control::L13_SET, 0x33),
    (Control::SCR_SET, 0x34),
    (Control::RET_SET_INT, 0x35),
    (Control::BEAM_SET_INT, 0x36),
    (Control::IFIL_SET1, 0x37),
    (Control::EMI_SET, 0x38),
];

#[test]
fn end_to_end_adc1_frame_sets_emission_current() {
    let bytes = [0x02, 0x42, 0x00, 0x05, 0x02 ^ 0x42 ^ 0x00 ^ 0x05, 0x03];
    let msg = Message::decode(&bytes).unwrap();
    assert_eq!(msg, Message { tag: Tag::ADC1, value: 5 });
    let mut c = LEEDController::new(0);
    let mut log = VecDeque::new();
    c.update_from_message(msg, &mut log);
    assert_eq!(c.currents.emission, 5);
    assert_eq!(c.currents.beam, 0);
    assert_eq!(c.currents.filament, 0);
    assert!(log.is_empty());
}

#[test]
fn checksum_round_trip_and_bit_flips() {
    for id in 0..=255u8 {
        for &(msb, lsb) in &[(0u8, 0u8), (0x12, 0x34), (0xFF, 0xFF), (0x80, 0x01)] {
            let raw = RawMessage { id, msb, lsb };
            let bytes = raw.to_bytes();
            assert_eq!(bytes, frame(id, msb, lsb));
            assert_eq!(RawMessage::parse(&bytes), Ok(raw));
            for bit in 0..8 {
                let mut bad = bytes;
                bad[4] ^= 1 << bit;
                assert_eq!(RawMessage::parse(&bad), Err(FrameError::ChecksumMismatch));
                assert_eq!(Message::decode(&bad), Err(FrameError::ChecksumMismatch));
                assert_eq!(Message::from_bytes(&bad), None);
            }
        }
    }
}

#[test]
fn decoded_value_is_msb_then_lsb() {
    let m = Message::decode(&frame(0x45, 0x12, 0x34)).unwrap();
    assert_eq!(m, Message { tag: Tag::ADC2, value: 0x1234 });
    let m = Message::decode(&frame(0x48, 0xFF, 0xFF)).unwrap();
    assert_eq!(m, Message { tag: Tag::ADC3, value: 0xFFFF });
}

#[test]
fn writable_controls_encode_and_decode_back() {
    for &(control, id) in WRITABLE.iter() {
        for &value in &[0u32, 1, 255, 256, 3500, 63999, 0xFFFF] {
            let m = Message { tag: Tag::Control(control), value };
            let bytes = m.encode().unwrap();
            assert_eq!(bytes, frame(id, (value >> 8) as u8, (value & 0xFF) as u8));
            assert_eq!(m.to_bytes(), Some(bytes));
            assert_eq!(Message::decode(&bytes), Ok(m));
        }
    }
}

#[test]
fn every_inbound_id_decodes_to_its_tag() {
    let table = [
        (0x21u8, Tag::DigOut),
        (0x31, Tag::Control(Control::L2_SET)),
        (0x32, Tag::Control(Control::WEH_SET)),
        (0x33, Tag::Control(Control::L13_SET)),
        (0x34, Tag::Control(Control::SCR_SET)),
        (0x35, Tag::Control(Control::RET_SET_INT)),
        (0x36, Tag::Control(Control::BEAM_SET_INT)),
        (0x37, Tag::Control(Control::IFIL_SET1)),
        (0x38, Tag::Control(Control::EMI_SET)),
        (0x39, Tag::Control(Control::EMI_MAX)),
        (0x42, Tag::ADC1),
        (0x45, Tag::ADC2),
        (0x48, Tag::ADC3),
    ];
    for &(id, tag) in table.iter() {
        assert_eq!(Message::decode(&frame(id, 0x01, 0x02)), Ok(Message { tag, value: 0x0102 }));
    }
    for id in 0..=255u8 {
        if !table.iter().any(|&(i, _)| i == id) {
            assert_eq!(Message::decode(&frame(id, 0, 0)), Err(FrameError::UnknownId));
        }
    }
}

#[test]
fn tags_without_outbound_id_fail_to_encode() {
    for tag in [
        Tag::ADC1,
        Tag::ADC2,
        Tag::ADC3,
        Tag::DigOut,
        Tag::Control(Control::EMI_MAX),
    ] {
        let m = Message { tag, value: 7 };
        assert_eq!(m.encode(), Err(EncodeError::NoOutboundId));
        assert_eq!(m.to_bytes(), None);
        assert_eq!(m.to_raw(), None);
    }
}

#[test]
fn malformed_frames_are_rejected() {
    let good = frame(0x42, 0, 5);
    let mut bad_start = good;
    bad_start[0] = 0x01;
    assert_eq!(Message::decode(&bad_start), Err(FrameError::Malformed));
    let mut bad_end = good;
    bad_end[5] = 0x04;
    assert_eq!(Message::decode(&bad_end), Err(FrameError::Malformed));
    assert_eq!(RawMessage::parse(&bad_end), Err(FrameError::Malformed));
}

#[test]
fn raw_message_checksum_is_xor_of_fields() {
    let raw = RawMessage { id: 0x36, msb: 0x0D, lsb: 0xAC };
    assert_eq!(raw.checksum(), 0x02 ^ 0x36 ^ 0x0D ^ 0xAC);
    assert_eq!(Message::from_raw(raw), Some(Message { tag: Tag::Control(Control::BEAM_SET_INT), value: 3500 }));
    assert_eq!(Message::from_raw(RawMessage { id: 0x40, msb: 0, lsb: 0 }), None);
}

#[test]
fn readback_requests_carry_the_readback_id() {
    assert_eq!(readback_request(Tag::ADC1), Some(frame(0x42, 0, 0)));
    assert_eq!(readback_request(Tag::ADC2), Some(frame(0x45, 0, 0)));
    assert_eq!(readback_request(Tag::ADC3), Some(frame(0x48, 0, 0)));
    assert_eq!(readback_request(Tag::DigOut), None);
}
