//! Frame codec: fixed-size command frames and response decoding.
//!
//! Commands travel in two shapes: a short 7-byte frame
//! `[0x10, device_index, feature_index, op_byte, a, b, c]` and a long
//! 20-byte frame `[0x11, device_index, feature_index, op_byte, payload[16]]`.
//! The op byte packs a function identifier (which operation) in the high
//! nibble and a caller-chosen, non-zero software identifier (which client
//! session) in the low nibble. Responses share the long shape; byte 3
//! echoes the op byte, and a zero there marks a frame that is not yet the
//! real response and must be discarded.

use vstd::prelude::*;

verus! {

/// Report identifier of a short (7-byte) command frame.
pub const REPORT_ID_SHORT: u8 = 0x10;

/// Report identifier of a long (20-byte) command frame.
pub const REPORT_ID_LONG: u8 = 0x11;

/// Device index addressing the device that carries the receiver itself.
pub const DEVICE_INDEX: u8 = 0xff;

/// Feature index of the DPI / profile / record feature.
pub const FEATURE_RECORD: u8 = 0x0f;

/// Feature index of the LED feature.
pub const FEATURE_LED: u8 = 0x0e;

/// The fixed software identifier this client uses for its session.
pub const SOFTWARE_ID: u8 = 0x0a;

/// The function identifiers the device accepts: `0..=8` plus the two
/// error-handling operations `0xb` and `0xc`.
pub open spec fn valid_function_id(f: u8) -> bool {
    f <= 8 || f == 0xb || f == 0xc
}

/// The software identifier is a non-zero nibble.
pub open spec fn valid_software_id(s: u8) -> bool {
    0 < s < 16
}

/// The op byte: function identifier in the high nibble, software
/// identifier in the low nibble.
pub open spec fn spec_op_byte(function_id: u8, software_id: u8) -> u8 {
    (function_id * 16 + software_id) as u8
}

/// A short command frame as a byte sequence.
pub open spec fn spec_short_frame(di: u8, fi: u8, function_id: u8, software_id: u8, a: u8, b: u8, c: u8) -> Seq<u8> {
    seq![REPORT_ID_SHORT, di, fi, spec_op_byte(function_id, software_id), a, b, c]
}

/// A long command frame as a byte sequence: four header bytes followed by
/// a 16-byte payload.
pub open spec fn spec_long_frame(di: u8, fi: u8, function_id: u8, software_id: u8, payload: Seq<u8>) -> Seq<u8> {
    seq![REPORT_ID_LONG, di, fi, spec_op_byte(function_id, software_id)] + payload
}

/// Builds a short command frame.
pub fn encode_short(di: u8, fi: u8, function_id: u8, software_id: u8, a: u8, b: u8, c: u8) -> (r: Vec<u8>)
    requires
        valid_function_id(function_id),
        valid_software_id(software_id),
    ensures
        r@ == spec_short_frame(di, fi, function_id, software_id, a, b, c),
        r@.len() == 7,
{
    let op: u8 = function_id * 16 + software_id;
    let mut r: Vec<u8> = Vec::new();
    r.push(REPORT_ID_SHORT);
    r.push(di);
    r.push(fi);
    r.push(op);
    r.push(a);
    r.push(b);
    r.push(c);
    proof {
        assert(r@ =~= spec_short_frame(di, fi, function_id, software_id, a, b, c));
    }
    r
}

/// Builds a long command frame from a 16-byte payload.
pub fn encode_long(di: u8, fi: u8, function_id: u8, software_id: u8, payload: &Vec<u8>) -> (r: Vec<u8>)
    requires
        valid_function_id(function_id),
        valid_software_id(software_id),
        payload@.len() == 16,
    ensures
        r@ == spec_long_frame(di, fi, function_id, software_id, payload@),
        r@.len() == 20,
{
    let op: u8 = function_id * 16 + software_id;
    let mut r: Vec<u8> = Vec::new();
    r.push(REPORT_ID_LONG);
    r.push(di);
    r.push(fi);
    r.push(op);
    let mut i: usize = 0;
    while i < 16
        invariant
            i <= 16,
            payload@.len() == 16,
            r@.len() == 4 + i,
            r@ =~= seq![REPORT_ID_LONG, di, fi, spec_op_byte(function_id, software_id)] + payload@.take(i as int),
        decreases 16 - i,
    {
        r.push(payload[i]);
        proof {
            assert(payload@.take(i + 1) =~= payload@.take(i as int).push(payload@[i as int]));
        }
        i = i + 1;
    }
    proof {
        assert(payload@.take(16) =~= payload@);
    }
    r
}

/// The two fields of a status response: the device's error code and the
/// profile it currently reports as active.
#[derive(Clone, Copy, Debug, PartialEq, Eq, Structural)]
pub struct Status {
    pub error_code: u8,
    pub profile: u8,
}

/// How an operation against the device fails.
///
/// `Transport` is a transfer that failed or timed out with an empty result
/// where data was required; `Mismatch` is a response of the wrong shape, or
/// a valid response that never arrived within the bounded number of discard
/// iterations; `Rejected` is a well-formed status frame whose error code is
/// non-zero.
#[derive(Clone, Copy, Debug, PartialEq, Eq, Structural)]
pub enum ProtocolError {
    Transport,
    Mismatch,
    Rejected,
}

/// The status fields decoded from a full-length response, or nothing when
/// the read came back shorter than a long frame.
pub open spec fn spec_decode_status(resp: Seq<u8>) -> Option<Status> {
    if resp.len() >= 20 {
        Some(Status { error_code: resp[4], profile: resp[5] })
    } else {
        None
    }
}

/// Decodes the error code and current profile from a status response.
/// A response shorter than a long frame (in particular, a timed-out read
/// that yielded no bytes) is a protocol mismatch, not a status.
pub fn decode_status(resp: &Vec<u8>) -> (r: Result<Status, ProtocolError>)
    ensures
        resp@.len() >= 20 ==> r == Ok::<Status, ProtocolError>(Status { error_code: resp@[4], profile: resp@[5] }),
        resp@.len() < 20 ==> r == Err::<Status, ProtocolError>(ProtocolError::Mismatch),
        r matches Ok(s) ==> spec_decode_status(resp@) == Some(s),
        r is Err ==> spec_decode_status(resp@) is None,
{
    if resp.len() >= 20 {
        Ok(Status { error_code: resp[4], profile: resp[5] })
    } else {
        Err(ProtocolError::Mismatch)
    }
}

/// The response frame a device produces for a status query: a long frame
/// that echoes the status op byte and carries the error code and current
/// profile in bytes 4 and 5.
pub open spec fn spec_status_response(error_code: u8, profile: u8) -> Seq<u8> {
    seq![
        REPORT_ID_LONG, DEVICE_INDEX, FEATURE_RECORD, spec_op_byte(4, SOFTWARE_ID),
        error_code, profile, 0, 0, 0, 0, 0, 0, 0, 0, 0, 0, 0, 0, 0, 0,
    ]
}

/// Builds the status response frame a correctly behaving device would
/// send for the given error code and profile.
pub fn status_response(error_code: u8, profile: u8) -> (r: Vec<u8>)
    ensures
        r@ == spec_status_response(error_code, profile),
        r@.len() == 20,
{
    let mut payload: Vec<u8> = Vec::new();
    payload.push(error_code);
    payload.push(profile);
    let mut i: usize = 0;
    while i < 14
        invariant
            i <= 14,
            payload@.len() == 2 + i,
            payload@ =~= seq![error_code, profile] + Seq::new(i as nat, |j: int| 0u8),
        decreases 14 - i,
    {
        payload.push(0);
        proof {
            assert(Seq::new((i + 1) as nat, |j: int| 0u8) =~= Seq::new(i as nat, |j: int| 0u8).push(0u8));
        }
        i = i + 1;
    }
    let r = encode_long(DEVICE_INDEX, FEATURE_RECORD, 4, SOFTWARE_ID, &payload);
    proof {
        assert(r@ =~= spec_status_response(error_code, profile));
    }
    r
}

/// Decoding recovers exactly the fields a well-formed status response was
/// built from: for every error code and profile, decoding the simulated
/// response yields that pair.
pub proof fn lemma_status_round_trip(error_code: u8, profile: u8)
    ensures
        spec_decode_status(spec_status_response(error_code, profile))
            == Some(Status { error_code: error_code, profile: profile }),
{
}

} // verus!
