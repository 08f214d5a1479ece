use akari::error::DecodeError;
use akari::message::AkariMessage;
use akari::response::AkariResponse;
use binrw::{BinRead, BinWrite};
use std::io::Cursor;

fn binrw_le_f32(x: f32) -> Vec<u8> {
    let mut out = Cursor::new(Vec::new());
    x.write_le(&mut out).unwrap();
    out.into_inner()
}

#[test]
fn commands_without_payload_are_one_tag_byte() {
    assert_eq!(AkariMessage::Ping.message(), vec![0u8]);
    assert_eq!(AkariMessage::Pulse.message(), vec![3u8]);
    assert_eq!(AkariMessage::Listen.message(), vec![255u8]);
}

#[test]
fn set_hue_of_one_is_little_endian() {
    assert_eq!(
        AkariMessage::SetHue(1.0f32.to_bits()).message(),
        vec![1u8, 0x00, 0x00, 0x80, 0x3f]
    );
}

#[test]
fn set_hue_of_a_half() {
    assert_eq!(
        AkariMessage::SetHue(0.5f32.to_bits()).message(),
        vec![1u8, 0x00, 0x00, 0x00, 0x3f]
    );
}

#[test]
fn set_base_value_has_tag_two() {
    assert_eq!(
        AkariMessage::SetBaseValue(0.25f32.to_bits()).message(),
        vec![2u8, 0x00, 0x00, 0x80, 0x3e]
    );
    assert_eq!(
        AkariMessage::SetBaseValue(0x0403_0201).message(),
        vec![2u8, 1, 2, 3, 4]
    );
}

#[test]
fn numeric_commands_are_five_bytes_long() {
    let samples = [
        0.0f32,
        -0.0,
        1.0,
        0.5,
        359.9,
        -12.75,
        f32::MIN_POSITIVE,
        f32::MAX,
        f32::MIN,
        f32::EPSILON,
    ];
    for x in samples {
        assert_eq!(AkariMessage::SetHue(x.to_bits()).message().len(), 5);
        assert_eq!(AkariMessage::SetBaseValue(x.to_bits()).message().len(), 5);
    }
    assert_eq!(AkariMessage::Ping.message().len(), 1);
    assert_eq!(AkariMessage::Pulse.message().len(), 1);
    assert_eq!(AkariMessage::Listen.message().len(), 1);
}

#[test]
fn payload_agrees_with_binrw() {
    let samples = [
        0.0f32,
        -0.0,
        1.0,
        0.5,
        0.333_333_34,
        359.9,
        -12.75,
        f32::MIN_POSITIVE,
        f32::MAX,
        f32::INFINITY,
        f32::NAN,
    ];
    for x in samples {
        let hue = AkariMessage::SetHue(x.to_bits()).message();
        assert_eq!(hue[0], 1);
        assert_eq!(hue[1..].to_vec(), binrw_le_f32(x));
        let value = AkariMessage::SetBaseValue(x.to_bits()).message();
        assert_eq!(value[0], 2);
        assert_eq!(value[1..].to_vec(), binrw_le_f32(x));
    }
}

#[test]
fn commands_survive_a_round_trip() {
    let commands = [
        AkariMessage::Ping,
        AkariMessage::SetHue(0),
        AkariMessage::SetHue(1.0f32.to_bits()),
        AkariMessage::SetHue(f32::NAN.to_bits()),
        AkariMessage::SetHue(u32::MAX),
        AkariMessage::SetBaseValue(0.75f32.to_bits()),
        AkariMessage::SetBaseValue(0x8000_0001),
        AkariMessage::Pulse,
        AkariMessage::Listen,
    ];
    for c in commands {
        assert_eq!(AkariMessage::decode(&c.message()), Ok(c));
        let mut padded = c.message();
        padded.extend_from_slice(&[9, 9, 9]);
        assert_eq!(AkariMessage::decode(&padded), Ok(c));
    }
}

#[test]
fn command_decoding_rejects_what_is_no_command() {
    assert_eq!(AkariMessage::decode(&[]), Err(DecodeError::Truncated));
    assert_eq!(AkariMessage::decode(&[1]), Err(DecodeError::Truncated));
    assert_eq!(
        AkariMessage::decode(&[1, 0, 0, 0x80]),
        Err(DecodeError::Truncated)
    );
    assert_eq!(
        AkariMessage::decode(&[2, 0, 0, 0]),
        Err(DecodeError::Truncated)
    );
    assert_eq!(AkariMessage::decode(&[4]), Err(DecodeError::UnknownTag));
    assert_eq!(
        AkariMessage::decode(&[254, 0, 0, 0, 0]),
        Err(DecodeError::UnknownTag)
    );
}

#[test]
fn command_decoding_reads_the_payload_little_endian() {
    assert_eq!(
        AkariMessage::decode(&[1, 0x00, 0x00, 0x80, 0x3f]),
        Ok(AkariMessage::SetHue(1.0f32.to_bits()))
    );
    assert_eq!(
        AkariMessage::decode(&[2, 0x78, 0x56, 0x34, 0x12]),
        Ok(AkariMessage::SetBaseValue(0x1234_5678))
    );
}

#[test]
fn leading_zero_is_pong() {
    assert_eq!(AkariResponse::decode(&[0]), Ok(AkariResponse::Pong));
    assert_eq!(
        AkariResponse::decode(&[0, 1, 2, 3, 4, 5]),
        Ok(AkariResponse::Pong)
    );
}

#[test]
fn leading_one_is_result() {
    assert_eq!(AkariResponse::decode(&[1, 0]), Ok(AkariResponse::Result(0)));
    assert_eq!(
        AkariResponse::decode(&[1, 200, 77]),
        Ok(AkariResponse::Result(200))
    );
}

#[test]
fn leading_255_is_color() {
    assert_eq!(
        AkariResponse::decode(&[255, 10, 20, 30]),
        Ok(AkariResponse::Color([10, 20, 30]))
    );
    assert_eq!(
        AkariResponse::decode(&[255, 255, 0, 0, 42, 42]),
        Ok(AkariResponse::Color([255, 0, 0]))
    );
}

#[test]
fn color_payload_agrees_with_binrw() {
    let datagram = [255u8, 1, 2, 3, 4];
    let mut reader = Cursor::new(&datagram[1..]);
    let rgb = <[u8; 3]>::read_le(&mut reader).unwrap();
    assert_eq!(AkariResponse::decode(&datagram), Ok(AkariResponse::Color(rgb)));
}

#[test]
fn every_other_leading_byte_is_unknown() {
    for tag in 2u8..=254 {
        assert_eq!(AkariResponse::decode(&[tag]), Err(DecodeError::UnknownTag));
        assert_eq!(
            AkariResponse::decode(&[tag, 1, 2, 3, 4]),
            Err(DecodeError::UnknownTag)
        );
    }
}

#[test]
fn result_without_its_code_is_truncated() {
    assert_eq!(AkariResponse::decode(&[1]), Err(DecodeError::Truncated));
}

#[test]
fn color_with_two_of_three_bytes_is_truncated() {
    assert_eq!(
        AkariResponse::decode(&[255, 10, 20]),
        Err(DecodeError::Truncated)
    );
    assert_eq!(AkariResponse::decode(&[255]), Err(DecodeError::Truncated));
}

#[test]
fn empty_datagram_is_truncated() {
    assert_eq!(AkariResponse::decode(&[]), Err(DecodeError::Truncated));
}

#[test]
fn frame_drops_what_lies_beyond_it() {
    let datagram = [255u8, 10, 20, 30, 40];
    assert_eq!(
        AkariResponse::decode_frame(&datagram, 256),
        Ok(AkariResponse::Color([10, 20, 30]))
    );
    assert_eq!(
        AkariResponse::decode_frame(&datagram, 4),
        Ok(AkariResponse::Color([10, 20, 30]))
    );
    assert_eq!(
        AkariResponse::decode_frame(&datagram, 3),
        Err(DecodeError::Truncated)
    );
    assert_eq!(
        AkariResponse::decode_frame(&datagram, 0),
        Err(DecodeError::Truncated)
    );
    assert_eq!(
        AkariResponse::decode_frame(&[1, 5], 1),
        Err(DecodeError::Truncated)
    );
    assert_eq!(
        AkariResponse::decode_frame(&[0, 5], 1),
        Ok(AkariResponse::Pong)
    );
    assert_eq!(
        AkariResponse::decode_frame(&[9, 5], 1),
        Err(DecodeError::UnknownTag)
    );
}

#[test]
fn frame_with_room_for_a_reply_changes_nothing() {
    let mut long = vec![1u8, 17];
    long.resize(1000, 0xee);
    for max in [4usize, 5, 256, 999, 1000, 5000] {
        assert_eq!(
            AkariResponse::decode_frame(&long, max),
            AkariResponse::decode(&long)
        );
    }
    assert_eq!(AkariResponse::decode(&long), Ok(AkariResponse::Result(17)));
}
