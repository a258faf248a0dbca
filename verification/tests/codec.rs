use bytes::{Bytes, BytesMut};
use vgm_codec::command::{parse_commands, write_commands, Command, CommandError};

fn decode_one(stream: &[u8]) -> (Result<Command, CommandError>, usize) {
    let mut data = Bytes::copy_from_slice(stream);
    let before = data.len();
    let r = Command::from_bytes(&mut data);
    (r, before - data.len())
}

fn round_trip(stream: &[u8]) {
    let (r, consumed) = decode_one(stream);
    let cmd = r.expect("stream should decode");
    assert_eq!(consumed, stream.len());
    assert_eq!(cmd.to_bytes(), stream.to_vec());
}

#[test]
fn round_trip_value_opcodes() {
    round_trip(&[0x31, 0xAB]);
    round_trip(&[0x4F, 0x00]);
    round_trip(&[0x50, 0x7F]);
}

#[test]
fn round_trip_register_value_opcodes() {
    for op in 0x51..=0x5F {
        round_trip(&[op, 0x23, 0x45]);
    }
    round_trip(&[0xA0, 0x01, 0x02]);
    for op in 0xB0..=0xB1 {
        round_trip(&[op, 0xFE, 0xDC]);
    }
    for op in 0xB3..=0xBF {
        round_trip(&[op, 0x10, 0x20]);
    }
}

#[test]
fn round_trip_wide_opcodes() {
    round_trip(&[0x61, 0x34, 0x12]);
    round_trip(&[0xB2, 0x07, 0xCD, 0xAB]);
    round_trip(&[0xC0, 0x9A, 0x78, 0x56]);
    round_trip(&[0xC1, 0x9A, 0x78, 0x56]);
    round_trip(&[0xC3, 0x44, 0x33, 0x22]);
    round_trip(&[0xC5, 0x12, 0x34, 0x56]);
    round_trip(&[0xC6, 0x12, 0x34, 0x56]);
    round_trip(&[0xC7, 0x12, 0x34, 0x56]);
    round_trip(&[0xC8, 0x12, 0x34, 0x56]);
    round_trip(&[0xD0, 0x01, 0x02, 0x03]);
    round_trip(&[0xD1, 0x01, 0x02, 0x03]);
    round_trip(&[0xD2, 0x01, 0x02, 0x03]);
    round_trip(&[0xD3, 0xAA, 0x55, 0x11]);
    round_trip(&[0xD4, 0xAA, 0x55, 0x11]);
    round_trip(&[0xD5, 0xAA, 0x55, 0x11]);
    round_trip(&[0xD6, 0x0F, 0xEF, 0xBE]);
    round_trip(&[0xE0, 0x78, 0x56, 0x34, 0x12]);
    round_trip(&[0xE1, 0x21, 0x43, 0x65, 0x87]);
}

#[test]
fn decoded_fields_little_endian() {
    let (r, _) = decode_one(&[0x61, 0x34, 0x12]);
    assert_eq!(r.unwrap(), Command::WaitNSamples { n: 0x1234 });
    let (r, _) = decode_one(&[0xE0, 0x78, 0x56, 0x34, 0x12]);
    assert_eq!(r.unwrap(), Command::SeekPCM { offset: 0x12345678 });
    let (r, _) = decode_one(&[0xE1, 0x21, 0x43, 0x65, 0x87]);
    assert_eq!(r.unwrap(), Command::C352Write { register: 0x4321, value: 0x8765 });
}

#[test]
fn multi_pcm_bank_channel_first() {
    let (r, _) = decode_one(&[0xC3, 0x05, 0x34, 0x12]);
    assert_eq!(r.unwrap(), Command::MultiPCMSetBank { channel: 0x05, offset: 0x1234 });
    assert_eq!(
        Command::MultiPCMSetBank { channel: 0x05, offset: 0x1234 }.to_bytes(),
        vec![0xC3, 0x05, 0x34, 0x12]
    );
}

#[test]
fn decoded_fields_big_endian() {
    let (r, _) = decode_one(&[0xC5, 0x12, 0x34, 0x56]);
    assert_eq!(r.unwrap(), Command::SCSPWrite { offset: 0x1234, value: 0x56 });
    let (r, _) = decode_one(&[0xC8, 0x12, 0x34, 0x56]);
    assert_eq!(r.unwrap(), Command::X1010Write { offset: 0x1234, value: 0x56 });
}

#[test]
fn inline_nibble_boundaries() {
    let (r, consumed) = decode_one(&[0x70]);
    assert_eq!(r.unwrap(), Command::WaitNSamplesPlus1 { n: 0 });
    assert_eq!(consumed, 1);
    let (r, _) = decode_one(&[0x7F]);
    assert_eq!(r.unwrap(), Command::WaitNSamplesPlus1 { n: 15 });
    let (r, _) = decode_one(&[0x80]);
    assert_eq!(r.unwrap(), Command::YM2612Port0Address2AWriteWait { n: 0 });
    let (r, _) = decode_one(&[0x8F]);
    assert_eq!(r.unwrap(), Command::YM2612Port0Address2AWriteWait { n: 15 });
}

#[test]
fn inline_nibble_encoding() {
    assert_eq!(Command::WaitNSamplesPlus1 { n: 0 }.to_bytes(), vec![0x70]);
    assert_eq!(Command::WaitNSamplesPlus1 { n: 15 }.to_bytes(), vec![0x7F]);
    assert_eq!(Command::YM2612Port0Address2AWriteWait { n: 15 }.to_bytes(), vec![0x8F]);
    assert!(!Command::WaitNSamplesPlus1 { n: 16 }.can_encode());
    assert!(Command::WaitNSamplesPlus1 { n: 15 }.can_encode());
}

#[test]
fn fixed_waits_and_terminator() {
    round_trip(&[0x62]);
    round_trip(&[0x63]);
    let (r, consumed) = decode_one(&[0x66, 0x50, 0x01]);
    assert_eq!(r.unwrap(), Command::EndOfSoundData);
    assert_eq!(consumed, 1);
    assert_eq!(Command::EndOfSoundData.to_bytes(), vec![0x66]);
}

#[test]
fn data_block_exactness() {
    let stream = [0x67, 0x66, 0x00, 0x04, 0x00, 0x00, 0x00, 0xAA, 0xBB, 0xCC, 0xDD];
    let mut data = Bytes::copy_from_slice(&stream);
    let before = data.len();
    let cmd = Command::from_bytes(&mut data).unwrap();
    // 10 bytes past the opcode: the skipped compatibility byte 0x66, the
    // type, the 32-bit length, and the 4 payload bytes.
    assert_eq!(before - data.len(), 1 + 10);
    assert_eq!(
        cmd,
        Command::DataBlock {
            data_type: 0x00,
            data_size: 4,
            data: vec![0xAA, 0xBB, 0xCC, 0xDD],
        }
    );
    assert_eq!(cmd.to_bytes(), stream.to_vec());
}

#[test]
fn data_block_truncated_payload() {
    let (r, consumed) = decode_one(&[0x67, 0x66, 0x00, 0x05, 0x00, 0x00, 0x00, 0xAA, 0xBB]);
    assert_eq!(r.unwrap_err(), CommandError::TruncatedInput);
    assert_eq!(consumed, 0);
}

#[test]
fn placeholder_opcodes() {
    let (r, consumed) = decode_one(&[0x68, 0x01, 0x02]);
    let cmd = r.unwrap();
    assert_eq!(cmd, Command::PCMRAMWrite { offset: 0, data: vec![] });
    assert_eq!(consumed, 1);
    assert!(!cmd.can_encode());
    for op in 0x90..=0x95 {
        let (r, consumed) = decode_one(&[op, 0x01]);
        let cmd = r.unwrap();
        assert_eq!(cmd, Command::DACStreamControlWrite { register: 0, value: 0 });
        assert_eq!(consumed, 1);
        assert!(!cmd.can_encode());
    }
}

#[test]
fn terminator_exclusion() {
    let mut data = Bytes::copy_from_slice(&[0x50, 0x01, 0x66]);
    let cmds = parse_commands(&mut data).unwrap();
    assert_eq!(cmds, vec![Command::PSGWrite { value: 0x01 }]);
    assert_eq!(data.len(), 0);
}

#[test]
fn wire_ambiguity_preserved() {
    let a = Command::RF5C68WriteOffset { offset: 0x1234, value: 0x56 };
    let b = Command::RF5C164WriteOffset { offset: 0x1234, value: 0x56 };
    let bytes_a = a.clone().to_bytes();
    let bytes_b = b.to_bytes();
    assert_eq!(bytes_a, bytes_b);
    assert_eq!(bytes_a[0], 0xC1);
    let (r, _) = decode_one(&bytes_a);
    assert_eq!(r.unwrap(), a);
}

#[test]
fn rf5c164_offset_opcode_unrecognized_on_decode() {
    let (r, consumed) = decode_one(&[0xC2, 0x34, 0x12, 0x56]);
    assert_eq!(r.unwrap_err(), CommandError::UnrecognizedOpcode { opcode: 0xC2 });
    assert_eq!(consumed, 1);
}

#[test]
fn unrecognized_opcode() {
    // The offending opcode byte is consumed; nothing further is.
    let (r, consumed) = decode_one(&[0xFF, 0x50, 0x01]);
    assert_eq!(r.unwrap_err(), CommandError::UnrecognizedOpcode { opcode: 0xFF });
    assert_eq!(consumed, 1);
    let mut data = Bytes::copy_from_slice(&[0xFF, 0x50, 0x01]);
    assert_eq!(
        parse_commands(&mut data).unwrap_err(),
        CommandError::UnrecognizedOpcode { opcode: 0xFF }
    );
    assert_eq!(data.len(), 2);
}

#[test]
fn unrecognized_opcode_mid_stream() {
    // The complete record and the offending opcode byte are consumed.
    let mut data = Bytes::copy_from_slice(&[0x50, 0x01, 0xFF, 0x09]);
    assert_eq!(
        parse_commands(&mut data).unwrap_err(),
        CommandError::UnrecognizedOpcode { opcode: 0xFF }
    );
    assert_eq!(data.len(), 1);
}

#[test]
fn truncated_input() {
    // A truncated record's bytes are not consumed.
    let (r, consumed) = decode_one(&[]);
    assert_eq!(r.unwrap_err(), CommandError::TruncatedInput);
    assert_eq!(consumed, 0);
    let (r, consumed) = decode_one(&[0x51, 0x01]);
    assert_eq!(r.unwrap_err(), CommandError::TruncatedInput);
    assert_eq!(consumed, 0);
    let (r, _) = decode_one(&[0xE0, 0x01, 0x02, 0x03]);
    assert_eq!(r.unwrap_err(), CommandError::TruncatedInput);
    // A parse pass keeps the complete records before the truncated tail.
    let mut data = Bytes::copy_from_slice(&[0x50, 0x01, 0x51, 0x02]);
    assert_eq!(parse_commands(&mut data).unwrap_err(), CommandError::TruncatedInput);
    assert_eq!(data.len(), 2);
}

#[test]
fn qsound_field_order_quirk() {
    let encoded = Command::QSoundWrite { register: 0x05, value: 0x1234 }.to_bytes();
    assert_eq!(encoded, vec![0xC4, 0x12, 0x34, 0x05]);
    let (r, _) = decode_one(&encoded);
    assert_eq!(r.unwrap(), Command::QSoundWrite { register: 0x05, value: 0x3412 });
}

#[test]
fn write_commands_appends() {
    let mut buffer = BytesMut::new();
    buffer.extend_from_slice(&[0x99]);
    let commands = vec![
        Command::PSGWrite { value: 0x01 },
        Command::WaitNSamples { n: 0x1234 },
        Command::EndOfSoundData,
    ];
    write_commands(&mut buffer, &commands);
    assert_eq!(&buffer[..], &[0x99, 0x50, 0x01, 0x61, 0x34, 0x12, 0x66]);
}

#[test]
fn sequence_round_trip() {
    let stream = [
        0x52, 0x28, 0xF0, // YM2612 port 0 write
        0x61, 0x34, 0x12, // wait
        0x70, // shortest inline wait
        0x67, 0x66, 0x00, 0x02, 0x00, 0x00, 0x00, 0xAA, 0xBB, // data block
        0xC5, 0x12, 0x34, 0x56, // big-endian offset write
        0x66, // terminator
    ];
    let mut data = Bytes::copy_from_slice(&stream);
    let cmds = parse_commands(&mut data).unwrap();
    assert_eq!(data.len(), 0);
    assert_eq!(cmds.len(), 5);

    let mut buffer = BytesMut::new();
    write_commands(&mut buffer, &cmds);
    buffer.extend_from_slice(&[0x66]);
    assert_eq!(&buffer[..], &stream[..]);
}
