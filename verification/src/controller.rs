//! Status and profile controller.
//!
//! The semantic operations of the protocol: querying the device's status,
//! switching and enabling profiles, setting the LED, draining the response
//! queue, and the fixed command sequence that resets a freshly connected
//! device. Operations that only send decompose into plans; decisions that
//! depend on what the device answered are functions over the frames that
//! came back, so they are verified for every possible answer.

use vstd::prelude::*;
use crate::block::spec_hi;
use crate::block::spec_lo;
use crate::config::LedMode;
use crate::frames::encode_long;
use crate::frames::encode_short;
use crate::frames::spec_long_frame;
use crate::frames::spec_short_frame;
use crate::frames::ProtocolError;
use crate::frames::Status;
use crate::frames::DEVICE_INDEX;
use crate::frames::FEATURE_LED;
use crate::frames::FEATURE_RECORD;
use crate::frames::SOFTWARE_ID;
use crate::plan::count_reads;
use crate::plan::count_sends;
use crate::plan::is_send_of;
use crate::plan::push_read;
use crate::plan::push_send;
use crate::plan::Action;

verus! {

/// The short frame of a status query (function 4 on the record feature).
pub open spec fn spec_status_frame() -> Seq<u8> {
    spec_short_frame(DEVICE_INDEX, FEATURE_RECORD, 4, SOFTWARE_ID, 0, 0, 0)
}

/// Builds the short frame of a status query.
pub fn status_frame() -> (r: Vec<u8>)
    ensures
        r@ == spec_status_frame(),
{
    encode_short(DEVICE_INDEX, FEATURE_RECORD, 4, SOFTWARE_ID, 0, 0, 0)
}

/// The short frame that switches the active profile (function 3 on the
/// record feature, profile number in the middle parameter byte).
pub open spec fn spec_profile_frame(n: u8) -> Seq<u8> {
    spec_short_frame(DEVICE_INDEX, FEATURE_RECORD, 3, SOFTWARE_ID, 0, n, 0)
}

/// Builds the short frame that switches the active profile.
pub fn profile_frame(n: u8) -> (r: Vec<u8>)
    ensures
        r@ == spec_profile_frame(n),
{
    encode_short(DEVICE_INDEX, FEATURE_RECORD, 3, SOFTWARE_ID, 0, n, 0)
}

/// A root command (function 0) addressed to the given feature.
pub open spec fn spec_root_frame(fi: u8, a: u8, b: u8, c: u8) -> Seq<u8> {
    spec_short_frame(DEVICE_INDEX, fi, 0, SOFTWARE_ID, a, b, c)
}

/// Builds a root command frame.
pub fn root_frame(fi: u8, a: u8, b: u8, c: u8) -> (r: Vec<u8>)
    ensures
        r@ == spec_root_frame(fi, a, b, c),
{
    encode_short(DEVICE_INDEX, fi, 0, SOFTWARE_ID, a, b, c)
}

/// A get-feature command (function 1) addressed to the given feature.
pub open spec fn spec_feature_frame(fi: u8, a: u8, b: u8, c: u8) -> Seq<u8> {
    spec_short_frame(DEVICE_INDEX, fi, 1, SOFTWARE_ID, a, b, c)
}

/// Builds a get-feature command frame.
pub fn feature_frame(fi: u8, a: u8, b: u8, c: u8) -> (r: Vec<u8>)
    ensures
        r@ == spec_feature_frame(fi, a, b, c),
{
    encode_short(DEVICE_INDEX, fi, 1, SOFTWARE_ID, a, b, c)
}

/// A connectivity-check command (function 2) addressed to the given
/// feature.
pub open spec fn spec_connected_frame(fi: u8, a: u8, b: u8, c: u8) -> Seq<u8> {
    spec_short_frame(DEVICE_INDEX, fi, 2, SOFTWARE_ID, a, b, c)
}

/// Builds a connectivity-check command frame.
pub fn connected_frame(fi: u8, a: u8, b: u8, c: u8) -> (r: Vec<u8>)
    ensures
        r@ == spec_connected_frame(fi, a, b, c),
{
    encode_short(DEVICE_INDEX, fi, 2, SOFTWARE_ID, a, b, c)
}

/// The long frame that reads part of a stored record back (function 5).
pub open spec fn spec_read_record_frame(id_a: u8, profile: u8, offset: u8) -> Seq<u8> {
    spec_long_frame(
        DEVICE_INDEX,
        FEATURE_RECORD,
        5,
        SOFTWARE_ID,
        seq![id_a, profile, 0, offset, 1, 0, 0, 0, 0, 0, 0, 0, 0, 0, 0, 0],
    )
}

/// Builds the long frame that reads part of a stored record back.
pub fn read_record_frame(id_a: u8, profile: u8, offset: u8) -> (r: Vec<u8>)
    ensures
        r@ == spec_read_record_frame(id_a, profile, offset),
{
    let mut payload: Vec<u8> = Vec::new();
    payload.push(id_a);
    payload.push(profile);
    payload.push(0);
    payload.push(offset);
    payload.push(1);
    let mut i: usize = 0;
    while i < 11
        invariant
            i <= 11,
            payload@ =~= seq![id_a, profile, 0, offset, 1] + Seq::new(i as nat, |j: int| 0u8),
        decreases 11 - i,
    {
        payload.push(0);
        proof {
            assert(Seq::new((i + 1) as nat, |j: int| 0u8)
                =~= Seq::new(i as nat, |j: int| 0u8).push(0u8));
        }
        i = i + 1;
    }
    proof {
        assert(payload@ =~= seq![id_a, profile, 0, offset, 1, 0, 0, 0, 0, 0, 0, 0, 0, 0, 0, 0]);
    }
    encode_long(DEVICE_INDEX, FEATURE_RECORD, 5, SOFTWARE_ID, &payload)
}

/// The payload of the LED command: the mode identifier and the fields
/// that mode uses; the fields of the other modes are zero.
pub open spec fn spec_led_payload(mode: LedMode) -> Seq<u8> {
    match mode {
        LedMode::Off => seq![0, 0, 0, 0, 0, 1, 0, 0, 0, 0, 0, 0, 0, 0, 0, 0],
        LedMode::Static { r, g, b } => seq![0, 1, r, g, b, 1, 0, 0, 0, 0, 0, 0, 0, 0, 0, 0],
        LedMode::Cycle { speed, brightness } => seq![
            0, 2, 0, 0, 0, 1, 0, spec_hi(speed), spec_lo(speed), brightness, 0, 0, 0, 0, 0, 0,
        ],
    }
}

/// The long frame that sets the LED mode (function 3 on the LED feature).
pub open spec fn spec_led_frame(mode: LedMode) -> Seq<u8> {
    spec_long_frame(DEVICE_INDEX, FEATURE_LED, 3, SOFTWARE_ID, spec_led_payload(mode))
}

/// Builds the long frame that sets the LED mode.
pub fn led_frame(mode: &LedMode) -> (r: Vec<u8>)
    ensures
        r@ == spec_led_frame(*mode),
{
    let mut payload: Vec<u8> = Vec::new();
    payload.push(0);
    match mode {
        LedMode::Off => {
            payload.push(0);
            payload.push(0);
            payload.push(0);
            payload.push(0);
            payload.push(1);
            payload.push(0);
            payload.push(0);
            payload.push(0);
            payload.push(0);
        },
        LedMode::Static { r, g, b } => {
            payload.push(1);
            payload.push(*r);
            payload.push(*g);
            payload.push(*b);
            payload.push(1);
            payload.push(0);
            payload.push(0);
            payload.push(0);
            payload.push(0);
        },
        LedMode::Cycle { speed, brightness } => {
            payload.push(2);
            payload.push(0);
            payload.push(0);
            payload.push(0);
            payload.push(1);
            payload.push(0);
            payload.push((*speed / 256) as u8);
            payload.push((*speed % 256) as u8);
            payload.push(*brightness);
        },
    }
    let mut i: usize = 0;
    while i < 6
        invariant
            i <= 6,
            payload@ =~= spec_led_payload(*mode).take(10 + i),
        decreases 6 - i,
    {
        payload.push(0);
        i = i + 1;
    }
    proof {
        assert(payload@ =~= spec_led_payload(*mode));
    }
    encode_long(DEVICE_INDEX, FEATURE_LED, 3, SOFTWARE_ID, &payload)
}

/// A response frame that is the real answer: full length, with the echoed
/// op byte set. A zero op byte marks a frame the device queued before the
/// answer was ready.
pub open spec fn spec_is_valid_response(f: Seq<u8>) -> bool {
    f.len() >= 20 && f[3] != 0
}

/// What polling the interrupt endpoint yields, given the frames the
/// endpoint hands out in order: the status decoded from the first valid
/// response; a transport error where a read came back empty first (the
/// read timed out although an answer was owed); and a mismatch where the
/// frames ran out before a valid response arrived.
pub open spec fn spec_poll_status(frames: Seq<Seq<u8>>) -> Result<Status, ProtocolError>
    decreases frames.len(),
{
    if frames.len() == 0 {
        Err(ProtocolError::Mismatch)
    } else if frames.first().len() == 0 {
        Err(ProtocolError::Transport)
    } else if spec_is_valid_response(frames.first()) {
        Ok(Status { error_code: frames.first()[4], profile: frames.first()[5] })
    } else {
        spec_poll_status(frames.drop_first())
    }
}

/// Skipping frames that are neither empty nor valid does not change what
/// polling yields.
proof fn lemma_poll_status_skip(frames: Seq<Seq<u8>>, i: int)
    requires
        0 <= i <= frames.len(),
        forall|j: int|
            0 <= j < i ==> (#[trigger] frames[j]).len() != 0 && !spec_is_valid_response(frames[j]),
    ensures
        spec_poll_status(frames) == spec_poll_status(frames.skip(i)),
    decreases i,
{
    if i > 0 {
        assert(frames.first().len() != 0 && !spec_is_valid_response(frames.first()));
        assert forall|j: int|
            0 <= j < i - 1 implies (#[trigger] frames.drop_first()[j]).len() != 0
            && !spec_is_valid_response(frames.drop_first()[j]) by {
            assert(frames.drop_first()[j] == frames[j + 1]);
        }
        lemma_poll_status_skip(frames.drop_first(), i - 1);
        assert(frames.drop_first().skip(i - 1) =~= frames.skip(i));
    } else {
        assert(frames.skip(0) =~= frames);
    }
}

/// The views of the frames a transport script holds.
pub open spec fn spec_frame_views(frames: Seq<Vec<u8>>) -> Seq<Seq<u8>> {
    frames.map_values(|f: Vec<u8>| f@)
}

/// Walks the response frames a status query elicited, in order, discarding
/// frames whose echoed op byte is still zero, and decodes the first valid
/// one. An empty read is a transport error; running out of frames without
/// a valid response is a mismatch. The script bounds the discard loop.
pub fn query_status(frames: &Vec<Vec<u8>>) -> (r: Result<Status, ProtocolError>)
    ensures
        r == spec_poll_status(spec_frame_views(frames@)),
{
    let ghost gs = spec_frame_views(frames@);
    let mut i: usize = 0;
    while i < frames.len()
        invariant
            i <= frames@.len(),
            gs == spec_frame_views(frames@),
            gs.len() == frames@.len(),
            forall|j: int|
                0 <= j < i ==> (#[trigger] gs[j]).len() != 0 && !spec_is_valid_response(gs[j]),
        decreases frames@.len() - i,
    {
        let resp = &frames[i];
        proof {
            assert(gs[i as int] == frames@[i as int]@);
        }
        if resp.len() == 0 {
            proof {
                lemma_poll_status_skip(gs, i as int);
                assert(gs.skip(i as int).first() == gs[i as int]);
            }
            return Err(ProtocolError::Transport);
        }
        if resp.len() >= 20 {
            if resp[3] != 0 {
                proof {
                    lemma_poll_status_skip(gs, i as int);
                    assert(gs.skip(i as int).first() == gs[i as int]);
                }
                return Ok(Status { error_code: resp[4], profile: resp[5] });
            }
        }
        i = i + 1;
    }
    proof {
        lemma_poll_status_skip(gs, gs.len() as int);
        assert(gs.skip(gs.len() as int) =~= Seq::<Seq<u8>>::empty());
    }
    Err(ProtocolError::Mismatch)
}

/// Querying status is idempotent: a device whose state has not changed
/// hands out the same frames again, and equal frame sequences yield equal
/// status results.
pub proof fn lemma_query_status_idempotent(first: Seq<Seq<u8>>, second: Seq<Seq<u8>>)
    requires
        first == second,
    ensures
        spec_poll_status(first) == spec_poll_status(second),
{
}

/// How one response frame steers the polling loop: a valid frame is the
/// answer, an empty read says nothing more is queued, and anything else
/// is discarded and the next frame read.
#[derive(Clone, Copy, Debug, PartialEq, Eq, Structural)]
pub enum ResponseClass {
    Valid,
    NotReady,
    Empty,
}

/// Classifies one response frame for the polling loop.
pub fn classify_response(resp: &Vec<u8>) -> (r: ResponseClass)
    ensures
        resp@.len() == 0 ==> r == ResponseClass::Empty,
        resp@.len() > 0 && spec_is_valid_response(resp@) ==> r == ResponseClass::Valid,
        resp@.len() > 0 && !spec_is_valid_response(resp@) ==> r == ResponseClass::NotReady,
{
    if resp.len() == 0 {
        ResponseClass::Empty
    } else if resp.len() >= 20 && resp[3] != 0 {
        ResponseClass::Valid
    } else {
        ResponseClass::NotReady
    }
}

/// Reports a decoded status to the caller: the current profile where the
/// device is content, and a rejection where its error code is non-zero.
pub fn check_status(s: Status) -> (r: Result<u8, ProtocolError>)
    ensures
        s.error_code == 0 ==> r == Ok::<u8, ProtocolError>(s.profile),
        s.error_code != 0 ==> r == Err::<u8, ProtocolError>(ProtocolError::Rejected),
{
    if s.error_code == 0 {
        Ok(s.profile)
    } else {
        Err(ProtocolError::Rejected)
    }
}

/// Whether a queue-draining read loop is done: a read that yielded no
/// bytes means no more frames are queued.
pub fn clear_queue_done(bytes_read: usize) -> (r: bool)
    ensures
        r == (bytes_read == 0),
{
    bytes_read == 0
}

/// Drains queued response frames: reads until a read yields no bytes, and
/// returns how many reads were made, the empty one included. The script
/// of read lengths bounds the loop; where the script holds no empty read,
/// every entry is consumed.
pub fn clear_queue(read_lens: &Vec<usize>) -> (n: usize)
    ensures
        n <= read_lens@.len(),
        forall|j: int| 0 <= j < n - 1 ==> #[trigger] read_lens@[j] != 0,
        (exists|j: int| 0 <= j < read_lens@.len() && #[trigger] read_lens@[j] == 0)
            ==> 0 < n && read_lens@[n - 1] == 0,
        (forall|j: int| 0 <= j < read_lens@.len() ==> #[trigger] read_lens@[j] != 0)
            ==> n == read_lens@.len(),
{
    let mut i: usize = 0;
    while i < read_lens.len()
        invariant
            i <= read_lens@.len(),
            forall|j: int| 0 <= j < i ==> #[trigger] read_lens@[j] != 0,
        decreases read_lens@.len() - i,
    {
        if read_lens[i] == 0 {
            return i + 1;
        }
        i = i + 1;
    }
    read_lens.len()
}

/// The target profile of a settings write: the caller's choice where it is
/// non-zero, else the first non-zero profile the polled statuses report.
pub open spec fn spec_resolve_profile(requested: u8, polled: Seq<Status>) -> Option<u8>
    decreases polled.len(),
{
    if requested != 0 {
        Some(requested)
    } else if polled.len() == 0 {
        None
    } else if polled.first().profile != 0 {
        Some(polled.first().profile)
    } else {
        spec_resolve_profile(0, polled.drop_first())
    }
}

/// Skipping statuses that report no profile does not change the resolved
/// target.
proof fn lemma_resolve_profile_skip(polled: Seq<Status>, i: int)
    requires
        0 <= i <= polled.len(),
        forall|j: int| 0 <= j < i ==> (#[trigger] polled[j]).profile == 0,
    ensures
        spec_resolve_profile(0, polled) == spec_resolve_profile(0, polled.skip(i)),
    decreases i,
{
    if i > 0 {
        assert(polled.first().profile == 0);
        assert forall|j: int| 0 <= j < i - 1 implies (#[trigger] polled.drop_first()[j]).profile
            == 0 by {
            assert(polled.drop_first()[j] == polled[j + 1]);
        }
        lemma_resolve_profile_skip(polled.drop_first(), i - 1);
        assert(polled.drop_first().skip(i - 1) =~= polled.skip(i));
    } else {
        assert(polled.skip(0) =~= polled);
    }
}

/// Resolves the target profile of a settings write. A requested profile of
/// zero means "the profile the device reports": the polled statuses are
/// walked in order for the first non-zero one. The script bounds the
/// polling loop, so a device that never reports a profile yields `None`
/// instead of spinning.
pub fn resolve_target_profile(requested: u8, polled: &Vec<Status>) -> (r: Option<u8>)
    ensures
        r == spec_resolve_profile(requested, polled@),
        r matches Some(p) ==> p != 0,
{
    if requested != 0 {
        return Some(requested);
    }
    let mut i: usize = 0;
    while i < polled.len()
        invariant
            requested == 0,
            i <= polled@.len(),
            forall|j: int| 0 <= j < i ==> (#[trigger] polled@[j]).profile == 0,
        decreases polled@.len() - i,
    {
        let s = polled[i];
        if s.profile != 0 {
            proof {
                lemma_resolve_profile_skip(polled@, i as int);
                assert(polled@.skip(i as int).first() == polled@[i as int]);
            }
            return Some(s.profile);
        }
        i = i + 1;
    }
    proof {
        lemma_resolve_profile_skip(polled@, polled@.len() as int);
        assert(polled@.skip(polled@.len() as int) =~= Seq::<Status>::empty());
    }
    None
}

/// Builds the plan of one status query: the query frame and one read.
pub fn query_status_plan() -> (r: Vec<Action>)
    ensures
        r@.len() == 2,
        is_send_of(r@[0], spec_status_frame()),
        r@[1] is Read,
        count_sends(r@) == 1,
        count_reads(r@) == 1,
{
    let mut v: Vec<Action> = Vec::new();
    push_send(&mut v, status_frame());
    push_read(&mut v);
    v
}

/// Builds the plan that switches the active profile: a status query, the
/// switch frame with its three queued responses, and a confirming status
/// query.
pub fn switch_profile_plan(n: u8) -> (r: Vec<Action>)
    requires
        1 <= n <= 5,
    ensures
        r@.len() == 8,
        is_send_of(r@[0], spec_status_frame()),
        r@[1] is Read,
        is_send_of(r@[2], spec_profile_frame(n)),
        r@[3] is Read,
        r@[4] is Read,
        r@[5] is Read,
        is_send_of(r@[6], spec_status_frame()),
        r@[7] is Read,
        count_sends(r@) == 3,
        count_reads(r@) == 5,
{
    let mut v: Vec<Action> = Vec::new();
    push_send(&mut v, status_frame());
    push_read(&mut v);
    push_send(&mut v, profile_frame(n));
    push_read(&mut v);
    push_read(&mut v);
    push_read(&mut v);
    push_send(&mut v, status_frame());
    push_read(&mut v);
    v
}

/// Builds the plan that sets the LED mode: a status query, a root command
/// waking the LED feature, and the LED frame itself.
pub fn set_led_plan(mode: &LedMode) -> (r: Vec<Action>)
    ensures
        r@.len() == 6,
        is_send_of(r@[0], spec_status_frame()),
        r@[1] is Read,
        is_send_of(r@[2], spec_root_frame(FEATURE_LED, 0, 0, 0)),
        r@[3] is Read,
        is_send_of(r@[4], spec_led_frame(*mode)),
        r@[5] is Read,
        count_sends(r@) == 3,
        count_reads(r@) == 3,
{
    let mut v: Vec<Action> = Vec::new();
    push_send(&mut v, status_frame());
    push_read(&mut v);
    push_send(&mut v, root_frame(FEATURE_LED, 0, 0, 0));
    push_read(&mut v);
    push_send(&mut v, led_frame(mode));
    push_read(&mut v);
    v
}

/// The fixed command sequence that resets a freshly connected device:
/// feature discovery and root commands, a connectivity check of every
/// feature used, a state reset of the LED feature, a switch to profile 1,
/// and the two error-handling commands that clear stale record state.
/// Each short command is answered by one response frame; the three
/// unacknowledged writes are each followed by a confirming status query.
pub open spec fn init_plan_ok(s: Seq<Action>) -> bool {
    &&& s.len() == 69
    &&& init_discovery_ok(s.subrange(0, 24))
    &&& init_probe_ok(s.subrange(24, 48))
    &&& init_reset_ok(s.subrange(48, 69))
}

/// The first stretch of the reset sequence: feature discovery and root
/// commands, each answered by one response frame.
pub open spec fn init_discovery_ok(s: Seq<Action>) -> bool {
    &&& s.len() == 24
    &&& is_send_of(s[0], spec_feature_frame(0x00, 0x00, 0x03, 0x00))
    &&& s[1] is Read
    &&& is_send_of(s[2], spec_feature_frame(0x00, 0x00, 0x03, 0x39))
    &&& s[3] is Read
    &&& is_send_of(s[4], spec_root_frame(0x00, 0x00, 0x03, 0x00))
    &&& s[5] is Read
    &&& is_send_of(s[6], spec_root_frame(0x02, 0x00, 0x00, 0x00))
    &&& s[7] is Read
    &&& is_send_of(s[8], spec_feature_frame(0x02, 0x00, 0x00, 0x00))
    &&& s[9] is Read
    &&& is_send_of(s[10], spec_root_frame(0x00, 0x00, 0x05, 0x00))
    &&& s[11] is Read
    &&& is_send_of(s[12], spec_connected_frame(0x03, 0x00, 0x00, 0x00))
    &&& s[13] is Read
    &&& is_send_of(s[14], spec_root_frame(0x02, 0x00, 0x00, 0x00))
    &&& s[15] is Read
    &&& is_send_of(s[16], spec_root_frame(0x00, 0x10, 0x01, 0x00))
    &&& s[17] is Read
    &&& is_send_of(s[18], spec_root_frame(0x00, 0x1f, 0x20, 0x00))
    &&& s[19] is Read
    &&& is_send_of(s[20], spec_root_frame(0x00, 0x10, 0x00, 0x00))
    &&& s[21] is Read
    &&& is_send_of(s[22], spec_feature_frame(0x02, 0x00, 0x00, 0x00))
    &&& s[23] is Read
}

/// The second stretch: reading the device name, probing the record and
/// LED features, each command answered by one response frame.
pub open spec fn init_probe_ok(s: Seq<Action>) -> bool {
    &&& s.len() == 24
    &&& is_send_of(s[0], spec_root_frame(0x03, 0x00, 0x00, 0x00))
    &&& s[1] is Read
    &&& is_send_of(s[2], spec_feature_frame(0x03, 0x00, 0x00, 0x00))
    &&& s[3] is Read
    &&& is_send_of(s[4], spec_feature_frame(0x03, 0x10, 0x00, 0x00))
    &&& s[5] is Read
    &&& is_send_of(s[6], spec_root_frame(0x00, 0x81, 0x10, 0x00))
    &&& s[7] is Read
    &&& is_send_of(s[8], spec_root_frame(0x10, 0x00, 0x00, 0x00))
    &&& s[9] is Read
    &&& is_send_of(s[10], spec_root_frame(0x00, 0x80, 0x90, 0x00))
    &&& s[11] is Read
    &&& is_send_of(s[12], spec_root_frame(0x00, 0x13, 0x00, 0x00))
    &&& s[13] is Read
    &&& is_send_of(s[14], spec_root_frame(0x00, 0x81, 0x00, 0x00))
    &&& s[15] is Read
    &&& is_send_of(s[16], spec_connected_frame(FEATURE_RECORD, 0x00, 0x00, 0x00))
    &&& s[17] is Read
    &&& is_send_of(s[18], spec_root_frame(0x00, 0x80, 0x70, 0x00))
    &&& s[19] is Read
    &&& is_send_of(s[20], spec_root_frame(FEATURE_LED, 0x00, 0x00, 0x00))
    &&& s[21] is Read
    &&& is_send_of(s[22], spec_feature_frame(FEATURE_LED, 0x00, 0x00, 0x00))
    &&& s[23] is Read
}

/// The last stretch: an LED-feature state reset, a switch to profile 1,
/// and the two error-handling commands, the unacknowledged writes each
/// followed by a confirming status query.
pub open spec fn init_reset_ok(s: Seq<Action>) -> bool {
    &&& s.len() == 21
    &&& is_send_of(s[0], spec_connected_frame(FEATURE_LED, 0x00, 0x00, 0x00))
    &&& s[1] is Read
    &&& is_send_of(s[2], spec_short_frame(DEVICE_INDEX, FEATURE_LED, 8, 0x0c, 0x01, 0x01, 0x00))
    &&& is_send_of(s[3], spec_status_frame())
    &&& s[4] is Read
    &&& is_send_of(s[5], spec_status_frame())
    &&& s[6] is Read
    &&& is_send_of(s[7], spec_status_frame())
    &&& s[8] is Read
    &&& is_send_of(s[9], spec_profile_frame(1))
    &&& s[10] is Read
    &&& s[11] is Read
    &&& s[12] is Read
    &&& is_send_of(s[13], spec_status_frame())
    &&& s[14] is Read
    &&& is_send_of(s[15], spec_short_frame(DEVICE_INDEX, FEATURE_RECORD, 0xb, 0x0c, 0x00, 0x00, 0x00))
    &&& is_send_of(s[16], spec_status_frame())
    &&& s[17] is Read
    &&& is_send_of(s[18], spec_short_frame(DEVICE_INDEX, FEATURE_RECORD, 0xc, 0x0c, 0x03, 0x00, 0x00))
    &&& is_send_of(s[19], spec_status_frame())
    &&& s[20] is Read
}

fn push_init_discovery(v: &mut Vec<Action>)
    ensures
        final(v)@.len() == old(v)@.len() + 24,
        final(v)@.subrange(0, old(v)@.len() as int) == old(v)@,
        init_discovery_ok(final(v)@.skip(old(v)@.len() as int)),
        count_sends(final(v)@) == count_sends(old(v)@) + 12,
        count_reads(final(v)@) == count_reads(old(v)@) + 12,
{
    let ghost base: int = v@.len() as int;
    push_send(v, feature_frame(0x00, 0x00, 0x03, 0x00));
    push_read(v);
    push_send(v, feature_frame(0x00, 0x00, 0x03, 0x39));
    push_read(v);
    push_send(v, root_frame(0x00, 0x00, 0x03, 0x00));
    push_read(v);
    push_send(v, root_frame(0x02, 0x00, 0x00, 0x00));
    push_read(v);
    push_send(v, feature_frame(0x02, 0x00, 0x00, 0x00));
    push_read(v);
    push_send(v, root_frame(0x00, 0x00, 0x05, 0x00));
    push_read(v);
    push_send(v, connected_frame(0x03, 0x00, 0x00, 0x00));
    push_read(v);
    push_send(v, root_frame(0x02, 0x00, 0x00, 0x00));
    push_read(v);
    push_send(v, root_frame(0x00, 0x10, 0x01, 0x00));
    push_read(v);
    push_send(v, root_frame(0x00, 0x1f, 0x20, 0x00));
    push_read(v);
    push_send(v, root_frame(0x00, 0x10, 0x00, 0x00));
    push_read(v);
    push_send(v, feature_frame(0x02, 0x00, 0x00, 0x00));
    push_read(v);
    proof {
        assert(v@.subrange(0, base) =~= old(v)@);
        assert(init_discovery_ok(v@.skip(base)));
    }
}

fn push_init_probe(v: &mut Vec<Action>)
    ensures
        final(v)@.len() == old(v)@.len() + 24,
        final(v)@.subrange(0, old(v)@.len() as int) == old(v)@,
        init_probe_ok(final(v)@.skip(old(v)@.len() as int)),
        count_sends(final(v)@) == count_sends(old(v)@) + 12,
        count_reads(final(v)@) == count_reads(old(v)@) + 12,
{
    let ghost base: int = v@.len() as int;
    push_send(v, root_frame(0x03, 0x00, 0x00, 0x00));
    push_read(v);
    push_send(v, feature_frame(0x03, 0x00, 0x00, 0x00));
    push_read(v);
    push_send(v, feature_frame(0x03, 0x10, 0x00, 0x00));
    push_read(v);
    push_send(v, root_frame(0x00, 0x81, 0x10, 0x00));
    push_read(v);
    push_send(v, root_frame(0x10, 0x00, 0x00, 0x00));
    push_read(v);
    push_send(v, root_frame(0x00, 0x80, 0x90, 0x00));
    push_read(v);
    push_send(v, root_frame(0x00, 0x13, 0x00, 0x00));
    push_read(v);
    push_send(v, root_frame(0x00, 0x81, 0x00, 0x00));
    push_read(v);
    push_send(v, connected_frame(FEATURE_RECORD, 0x00, 0x00, 0x00));
    push_read(v);
    push_send(v, root_frame(0x00, 0x80, 0x70, 0x00));
    push_read(v);
    push_send(v, root_frame(FEATURE_LED, 0x00, 0x00, 0x00));
    push_read(v);
    push_send(v, feature_frame(FEATURE_LED, 0x00, 0x00, 0x00));
    push_read(v);
    proof {
        assert(v@.subrange(0, base) =~= old(v)@);
        assert(init_probe_ok(v@.skip(base)));
    }
}

fn push_init_reset(v: &mut Vec<Action>)
    ensures
        final(v)@.len() == old(v)@.len() + 21,
        final(v)@.subrange(0, old(v)@.len() as int) == old(v)@,
        init_reset_ok(final(v)@.skip(old(v)@.len() as int)),
        count_sends(final(v)@) == count_sends(old(v)@) + 11,
        count_reads(final(v)@) == count_reads(old(v)@) + 10,
{
    let ghost base: int = v@.len() as int;
    push_send(v, connected_frame(FEATURE_LED, 0x00, 0x00, 0x00));
    push_read(v);
    push_send(v, encode_short(DEVICE_INDEX, FEATURE_LED, 8, 0x0c, 0x01, 0x01, 0x00));
    push_send(v, status_frame());
    push_read(v);
    push_send(v, status_frame());
    push_read(v);
    push_send(v, status_frame());
    push_read(v);
    push_send(v, profile_frame(1));
    push_read(v);
    push_read(v);
    push_read(v);
    push_send(v, status_frame());
    push_read(v);
    push_send(v, encode_short(DEVICE_INDEX, FEATURE_RECORD, 0xb, 0x0c, 0x00, 0x00, 0x00));
    push_send(v, status_frame());
    push_read(v);
    push_send(v, encode_short(DEVICE_INDEX, FEATURE_RECORD, 0xc, 0x0c, 0x03, 0x00, 0x00));
    push_send(v, status_frame());
    push_read(v);
    proof {
        assert(v@.subrange(0, base) =~= old(v)@);
        assert(init_reset_ok(v@.skip(base)));
    }
}

/// Builds the reset sequence that brings a freshly connected device into
/// a known state: 35 outbound frames and 34 reads, in the documented
/// order.
pub fn init_plan() -> (r: Vec<Action>)
    ensures
        init_plan_ok(r@),
        count_sends(r@) == 35,
        count_reads(r@) == 34,
{
    let mut v: Vec<Action> = Vec::new();
    push_init_discovery(&mut v);
    let ghost a: Seq<Action> = v@;
    push_init_probe(&mut v);
    let ghost b: Seq<Action> = v@;
    push_init_reset(&mut v);
    proof {
        assert(v@.subrange(0, 24) =~= a.skip(0));
        assert(v@.subrange(24, 48) =~= b.skip(24));
        assert(v@.subrange(48, 69) =~= v@.skip(48));
    }
    v
}

/// The command sequence that inspects and settles a profile before a
/// settings write: reading two stored record fragments back, switching to
/// the profile, waking the root and battery features, and the two
/// error-handling commands, each of those followed by a confirming status
/// query.
pub open spec fn before_apply_plan_ok(s: Seq<Action>, profile: u8) -> bool {
    &&& s.len() == 22
    &&& is_send_of(s[0], spec_read_record_frame(0x00, profile, 0x10))
    &&& s[1] is Read
    &&& is_send_of(s[2], spec_read_record_frame(0x00, profile, 0xe0))
    &&& s[3] is Read
    &&& is_send_of(s[4], spec_status_frame())
    &&& s[5] is Read
    &&& is_send_of(s[6], spec_profile_frame(profile))
    &&& s[7] is Read
    &&& s[8] is Read
    &&& s[9] is Read
    &&& is_send_of(s[10], spec_status_frame())
    &&& s[11] is Read
    &&& is_send_of(s[12], spec_root_frame(0x00, 0x80, 0x60, 0x00))
    &&& s[13] is Read
    &&& is_send_of(s[14], spec_root_frame(0x0d, 0x00, 0x00, 0x00))
    &&& s[15] is Read
    &&& is_send_of(s[16], spec_short_frame(DEVICE_INDEX, FEATURE_RECORD, 0xb, SOFTWARE_ID, 0x00, 0x00, 0x00))
    &&& is_send_of(s[17], spec_status_frame())
    &&& s[18] is Read
    &&& is_send_of(s[19], spec_short_frame(DEVICE_INDEX, FEATURE_RECORD, 0xc, SOFTWARE_ID, 0x03, 0x00, 0x00))
    &&& is_send_of(s[20], spec_status_frame())
    &&& s[21] is Read
}

/// Builds the sequence run before a settings write: 11 outbound frames
/// and 11 reads, in the documented order.
pub fn before_apply_plan(profile: u8) -> (r: Vec<Action>)
    ensures
        before_apply_plan_ok(r@, profile),
        count_sends(r@) == 11,
        count_reads(r@) == 11,
{
    let mut v: Vec<Action> = Vec::new();
    push_send(&mut v, read_record_frame(0x00, profile, 0x10));
    push_read(&mut v);
    push_send(&mut v, read_record_frame(0x00, profile, 0xe0));
    push_read(&mut v);
    push_send(&mut v, status_frame());
    push_read(&mut v);
    push_send(&mut v, profile_frame(profile));
    push_read(&mut v);
    push_read(&mut v);
    push_read(&mut v);
    push_send(&mut v, status_frame());
    push_read(&mut v);
    push_send(&mut v, root_frame(0x00, 0x80, 0x60, 0x00));
    push_read(&mut v);
    push_send(&mut v, root_frame(0x0d, 0x00, 0x00, 0x00));
    push_read(&mut v);
    push_send(&mut v, encode_short(DEVICE_INDEX, FEATURE_RECORD, 0xb, SOFTWARE_ID, 0x00, 0x00, 0x00));
    push_send(&mut v, status_frame());
    push_read(&mut v);
    push_send(&mut v, encode_short(DEVICE_INDEX, FEATURE_RECORD, 0xc, SOFTWARE_ID, 0x03, 0x00, 0x00));
    push_send(&mut v, status_frame());
    push_read(&mut v);
    v
}

} // verus!
