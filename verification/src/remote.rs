//! Encoder and decoder for remote-button command payloads.
//!
//! An outbound packet is `[length-prefix byte][opcode bytes]`, where the
//! opcode is the fixed one- or two-byte sequence of the command and the
//! length prefix always equals the byte length of the opcode body.

use vstd::prelude::*;

use crate::registry::Endpoint;
use crate::registry::WriteMode;
use crate::registry::spec_can_write;
use crate::types::RemoteCommand;

verus! {

/// The fixed opcode bytes of a remote command. The table is exhaustive and
/// fixed; no computation, pure lookup.
pub open spec fn spec_opcode(cmd: RemoteCommand) -> Seq<u8> {
    match cmd {
        RemoteCommand::FocusPress => seq![0x07u8],
        RemoteCommand::FocusRelease => seq![0x06u8],
        RemoteCommand::ShutterPress => seq![0x09u8],
        RemoteCommand::ShutterRelease => seq![0x08u8],
        RemoteCommand::AutofocusPress => seq![0x15u8],
        RemoteCommand::AutofocusRelease => seq![0x14u8],
        RemoteCommand::ZoomInPress => seq![0x6du8, 0x20u8],
        RemoteCommand::ZoomInRelease => seq![0x6cu8, 0x00u8],
        RemoteCommand::ZoomOutPress => seq![0x6bu8, 0x20u8],
        RemoteCommand::ZoomOutRelease => seq![0x6au8, 0x00u8],
        RemoteCommand::C1Press => seq![0x21u8],
        RemoteCommand::C1Release => seq![0x20u8],
        RemoteCommand::ToggleRecord => seq![0x0eu8],
        RemoteCommand::FocusInPress => seq![0x47u8, 0x20u8],
        RemoteCommand::FocusInRelease => seq![0x46u8, 0x00u8],
        RemoteCommand::FocusOutPress => seq![0x45u8, 0x20u8],
        RemoteCommand::FocusOutRelease => seq![0x44u8, 0x00u8],
    }
}

/// The full outbound payload of a remote command: the opcode length as a
/// single prefix byte, followed by the opcode bytes.
pub open spec fn spec_remote_payload(cmd: RemoteCommand) -> Seq<u8> {
    seq![spec_opcode(cmd).len() as u8] + spec_opcode(cmd)
}

/// Errors of the remote payload decoder.
#[derive(Clone, Copy, PartialEq, Eq, Structural, Debug)]
pub enum CodecError {
    /// The payload holds no bytes at all, so there is no length prefix.
    Empty,
    /// The length prefix disagrees with the number of bytes that follow it.
    LengthMismatch,
}

/// Encodes a remote command into its outbound payload.
pub fn encode_remote_command(cmd: RemoteCommand) -> (r: Vec<u8>)
    ensures
        r@ == spec_remote_payload(cmd),
{
    let mut r: Vec<u8> = Vec::new();
    match cmd {
        RemoteCommand::FocusPress => {
            r.push(1);
            r.push(0x07);
        }
        RemoteCommand::FocusRelease => {
            r.push(1);
            r.push(0x06);
        }
        RemoteCommand::ShutterPress => {
            r.push(1);
            r.push(0x09);
        }
        RemoteCommand::ShutterRelease => {
            r.push(1);
            r.push(0x08);
        }
        RemoteCommand::AutofocusPress => {
            r.push(1);
            r.push(0x15);
        }
        RemoteCommand::AutofocusRelease => {
            r.push(1);
            r.push(0x14);
        }
        RemoteCommand::ZoomInPress => {
            r.push(2);
            r.push(0x6d);
            r.push(0x20);
        }
        RemoteCommand::ZoomInRelease => {
            r.push(2);
            r.push(0x6c);
            r.push(0x00);
        }
        RemoteCommand::ZoomOutPress => {
            r.push(2);
            r.push(0x6b);
            r.push(0x20);
        }
        RemoteCommand::ZoomOutRelease => {
            r.push(2);
            r.push(0x6a);
            r.push(0x00);
        }
        RemoteCommand::C1Press => {
            r.push(1);
            r.push(0x21);
        }
        RemoteCommand::C1Release => {
            r.push(1);
            r.push(0x20);
        }
        RemoteCommand::ToggleRecord => {
            r.push(1);
            r.push(0x0e);
        }
        RemoteCommand::FocusInPress => {
            r.push(2);
            r.push(0x47);
            r.push(0x20);
        }
        RemoteCommand::FocusInRelease => {
            r.push(2);
            r.push(0x46);
            r.push(0x00);
        }
        RemoteCommand::FocusOutPress => {
            r.push(2);
            r.push(0x45);
            r.push(0x20);
        }
        RemoteCommand::FocusOutRelease => {
            r.push(2);
            r.push(0x44);
            r.push(0x00);
        }
    }
    proof {
        assert(r@ =~= spec_remote_payload(cmd));
    }
    r
}

/// Decodes an outbound remote payload back into its opcode bytes: checks
/// that the length prefix equals the length of the body that follows and
/// returns that body. Fails explicitly on a size mismatch instead of
/// reading out of bounds.
pub fn decode_remote_payload(data: &Vec<u8>) -> (r: Result<Vec<u8>, CodecError>)
    ensures
        r is Ok <==> (data@.len() > 0 && data@[0] as int == data@.len() - 1),
        r is Ok ==> r->Ok_0@ == data@.drop_first(),
        data@.len() == 0 ==> r == Err::<Vec<u8>, CodecError>(CodecError::Empty),
        (data@.len() > 0 && data@[0] as int != data@.len() - 1) ==> r == Err::<
            Vec<u8>,
            CodecError,
        >(CodecError::LengthMismatch),
{
    let n = data.len();
    if n == 0 {
        return Err(CodecError::Empty);
    }
    let prefix = data[0];
    if (prefix as usize) != n - 1 {
        return Err(CodecError::LengthMismatch);
    }
    let mut body: Vec<u8> = Vec::new();
    let mut i: usize = 1;
    while i < n
        invariant
            1 <= i <= n,
            n == data@.len(),
            body@ == data@.subrange(1, i as int),
        decreases n - i,
    {
        body.push(data[i]);
        i = i + 1;
        proof {
            assert(body@ =~= data@.subrange(1, i as int));
        }
    }
    proof {
        assert(body@ =~= data@.drop_first());
    }
    Ok(body)
}

/// The write plan of a remote-button payload: it goes to the remote write
/// endpoint, fire-and-forget (no response requested).
pub fn remote_write_plan() -> (r: (Endpoint, WriteMode))
    ensures
        r.0 == Endpoint::RemoteNotify,
        r.1 == WriteMode::WithoutResponse,
        spec_can_write(r.0),
{
    (Endpoint::RemoteNotify, WriteMode::WithoutResponse)
}

/// Law: decoding an encoded remote command recovers the exact opcode bytes,
/// and the length prefix of the payload equals the opcode length. Holds for
/// every command variant.
pub proof fn lemma_remote_round_trip(cmd: RemoteCommand)
    ensures
        spec_remote_payload(cmd).len() == spec_opcode(cmd).len() + 1,
        spec_remote_payload(cmd)[0] == spec_opcode(cmd).len() as u8,
        spec_remote_payload(cmd).drop_first() == spec_opcode(cmd),
        1 <= spec_opcode(cmd).len() <= 2,
{
    assert(spec_remote_payload(cmd).drop_first() =~= spec_opcode(cmd));
}

/// Law: the remote encoding is a pure function of the command — two
/// encodings of the same command are byte-identical, with no hidden state.
pub proof fn lemma_remote_encode_deterministic(cmd: RemoteCommand, a: Seq<u8>, b: Seq<u8>)
    requires
        a == spec_remote_payload(cmd),
        b == spec_remote_payload(cmd),
    ensures
        a == b,
{
}

} // verus!
