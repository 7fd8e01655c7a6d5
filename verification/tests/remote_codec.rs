//! Tests of the remote-button command codec.

use camlink::remote::{decode_remote_payload, encode_remote_command, CodecError};
use camlink::types::RemoteCommand;

fn all_commands() -> Vec<RemoteCommand> {
    vec![
        RemoteCommand::FocusPress,
        RemoteCommand::FocusRelease,
        RemoteCommand::ShutterPress,
        RemoteCommand::ShutterRelease,
        RemoteCommand::AutofocusPress,
        RemoteCommand::AutofocusRelease,
        RemoteCommand::ZoomInPress,
        RemoteCommand::ZoomInRelease,
        RemoteCommand::ZoomOutPress,
        RemoteCommand::ZoomOutRelease,
        RemoteCommand::C1Press,
        RemoteCommand::C1Release,
        RemoteCommand::ToggleRecord,
        RemoteCommand::FocusInPress,
        RemoteCommand::FocusInRelease,
        RemoteCommand::FocusOutPress,
        RemoteCommand::FocusOutRelease,
    ]
}

fn expected_opcode(cmd: RemoteCommand) -> Vec<u8> {
    match cmd {
        RemoteCommand::FocusPress => vec![0x07],
        RemoteCommand::FocusRelease => vec![0x06],
        RemoteCommand::ShutterPress => vec![0x09],
        RemoteCommand::ShutterRelease => vec![0x08],
        RemoteCommand::AutofocusPress => vec![0x15],
        RemoteCommand::AutofocusRelease => vec![0x14],
        RemoteCommand::ZoomInPress => vec![0x6d, 0x20],
        RemoteCommand::ZoomInRelease => vec![0x6c, 0x00],
        RemoteCommand::ZoomOutPress => vec![0x6b, 0x20],
        RemoteCommand::ZoomOutRelease => vec![0x6a, 0x00],
        RemoteCommand::C1Press => vec![0x21],
        RemoteCommand::C1Release => vec![0x20],
        RemoteCommand::ToggleRecord => vec![0x0e],
        RemoteCommand::FocusInPress => vec![0x47, 0x20],
        RemoteCommand::FocusInRelease => vec![0x46, 0x00],
        RemoteCommand::FocusOutPress => vec![0x45, 0x20],
        RemoteCommand::FocusOutRelease => vec![0x44, 0x00],
    }
}

#[test]
fn encode_prefixes_opcode_with_its_length() {
    for cmd in all_commands() {
        let opcode = expected_opcode(cmd);
        let payload = encode_remote_command(cmd);
        assert_eq!(payload.len(), opcode.len() + 1);
        assert_eq!(payload[0] as usize, opcode.len());
        assert_eq!(&payload[1..], &opcode[..]);
    }
}

#[test]
fn decode_of_encode_recovers_opcode_for_every_variant() {
    for cmd in all_commands() {
        let payload = encode_remote_command(cmd);
        let body = decode_remote_payload(&payload).unwrap();
        assert_eq!(body, expected_opcode(cmd));
        assert_eq!(payload[0] as usize, body.len());
    }
}

#[test]
fn encoding_twice_is_byte_identical() {
    for cmd in all_commands() {
        let first = encode_remote_command(cmd);
        let second = encode_remote_command(cmd);
        assert_eq!(first, second);
    }
}

#[test]
fn decode_rejects_empty_payload() {
    let data: Vec<u8> = vec![];
    assert_eq!(decode_remote_payload(&data), Err(CodecError::Empty));
}

#[test]
fn decode_rejects_wrong_length_prefix() {
    let too_small: Vec<u8> = vec![0x01, 0x07, 0x20];
    assert_eq!(decode_remote_payload(&too_small), Err(CodecError::LengthMismatch));
    let too_big: Vec<u8> = vec![0x02, 0x07];
    assert_eq!(decode_remote_payload(&too_big), Err(CodecError::LengthMismatch));
}

#[test]
fn decode_accepts_exact_length_prefix() {
    let data: Vec<u8> = vec![0x02, 0x6d, 0x20];
    assert_eq!(decode_remote_payload(&data), Ok(vec![0x6d, 0x20]));
}
