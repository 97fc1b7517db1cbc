//! Fixed-length report framing: outbound requests and inbound key events.

use vstd::prelude::*;

verus! {

/// Number of bytes in a report as the device sends and expects it.
pub const REPORT_LENGTH: usize = 32;

/// Number of bytes handed to the transport for one write: the report
/// preceded by the report-id slot.
pub const REQUEST_LENGTH: usize = 33;

/// Report kind that carries the input mute state.
pub const MUTE_REPORT: u8 = 2;

/// Report kind that carries the output volume.
pub const VOLUME_REPORT: u8 = 3;

/// Distance between a raw key byte and the letter it stands for.
pub const KEY_OFFSET: u8 = 61;

/// The bytes written for `payload`: a zero report id, the payload, then
/// zeros up to the fixed length.
pub open spec fn framed(payload: Seq<u8>) -> Seq<u8> {
    Seq::new(
        REQUEST_LENGTH as nat,
        |i: int| if 1 <= i <= payload.len() { payload[i - 1] } else { 0u8 },
    )
}

/// The bytes written for an outbound command: zero, the command, the value,
/// and zeros for the rest.
pub open spec fn request_bytes(command: u8, value: u8) -> Seq<u8> {
    Seq::new(
        REQUEST_LENGTH as nat,
        |i: int| if i == 1 { command } else if i == 2 { value } else { 0u8 },
    )
}

/// The letter a raw key byte stands for: the byte plus the key offset,
/// wrapping at 256.
pub open spec fn key_char(raw: u8) -> char {
    (((raw as int + KEY_OFFSET as int) % 256) as u8) as char
}

/// The bytes written for an outbound command are the frame of the payload
/// made of the command and the value.
pub proof fn lemma_request_is_framed_pair(command: u8, value: u8)
    ensures
        request_bytes(command, value) == framed(seq![command, value]),
{
    assert(request_bytes(command, value) =~= framed(seq![command, value]));
}

/// Lays `payload` out as a full-length write buffer.
pub fn frame_report(payload: &[u8]) -> (frame: [u8; REQUEST_LENGTH])
    requires
        payload@.len() <= REPORT_LENGTH,
    ensures
        frame@ == framed(payload@),
{
    let mut frame: [u8; REQUEST_LENGTH] = [0u8; REQUEST_LENGTH];
    let mut i: usize = 0;
    while i < payload.len()
        invariant
            i <= payload@.len() <= REPORT_LENGTH,
            forall|k: int| 0 <= k < REQUEST_LENGTH ==> frame@[k] == (if 1 <= k <= i {
                payload@[k - 1]
            } else {
                0u8
            }),
        decreases payload@.len() - i,
    {
        frame[i + 1] = payload[i];
        i += 1;
    }
    frame
}

/// Builds the write buffer for one outbound command.
pub fn encode_request(command: u8, value: u8) -> (frame: [u8; REQUEST_LENGTH])
    ensures
        frame@ == request_bytes(command, value),
        frame@.len() == REPORT_LENGTH + 1,
        frame@[0] == 0,
        frame@[1] == command,
        frame@[2] == value,
        forall|i: int| 3 <= i < frame@.len() ==> frame@[i] == 0,
{
    let payload: [u8; 2] = [command, value];
    proof {
        lemma_request_is_framed_pair(command, value);
        assert(payload@ =~= seq![command, value]);
    }
    frame_report(payload.as_slice())
}

/// Reads the layer and the key letter out of an inbound report.
pub fn decode_event(buffer: &[u8; REPORT_LENGTH]) -> (event: (u8, char))
    ensures
        event.0 == buffer@[0],
        event.1 == key_char(buffer@[1]),
{
    let layer: u8 = buffer[0];
    let code: u8 = buffer[1].wrapping_add(KEY_OFFSET);
    (layer, code as char)
}

} // verus!
