//! Record transaction engine.
//!
//! A configuration record travels in a begin → sixteen writes → end
//! bracket: a long frame opens the transaction for a target profile, each
//! of the sixteen record lines follows in its own long frame (each answered
//! by one response frame that only paces transmission), and a short frame
//! closes the transaction, after which the device queues three response
//! frames.
//!
//! The device rejects a record whose write identifier does not differ from
//! the previous write's, but still advances its internal state while
//! rejecting it. A committed settings write therefore runs the full bracket
//! twice: first with a fixed write identifier, which the device is expected
//! to reject, then with that identifier incremented by one, which it
//! accepts.

use vstd::prelude::*;
use crate::block::build_enable_block;
use crate::block::build_record_block;
use crate::block::spec_enable_block;
use crate::block::spec_record_block;
use crate::frames::encode_long;
use crate::frames::encode_short;
use crate::frames::spec_long_frame;
use crate::frames::spec_short_frame;
use crate::frames::DEVICE_INDEX;
use crate::frames::FEATURE_RECORD;
use crate::frames::SOFTWARE_ID;
use crate::plan::count_reads;
use crate::plan::count_sends;
use crate::plan::is_send_of;
use crate::plan::push_read;
use crate::plan::push_send;
use crate::plan::Action;

verus! {

/// The write identifier of the first, sacrificial pass of a settings
/// write. The device rejects it when it repeats the previous write's
/// identifier, yet still advances its internal state.
pub const FIRST_WRITE_ID: u8 = 0x1c;

/// The write identifier of the second pass, one above the first, which
/// the device accepts and commits.
pub const SECOND_WRITE_ID: u8 = 0x1d;

/// The long frame that opens a record transaction for the given target
/// profile.
pub open spec fn spec_start_record_frame(profile: u8) -> Seq<u8> {
    spec_long_frame(
        DEVICE_INDEX,
        FEATURE_RECORD,
        6,
        SOFTWARE_ID,
        seq![0, profile, 0, 0, 1, 0, 0, 0, 0, 0, 0, 0, 0, 0, 0, 0],
    )
}

/// The long frame that carries line `k` of a record.
pub open spec fn spec_record_line_frame(block: Seq<u8>, k: int) -> Seq<u8> {
    spec_long_frame(
        DEVICE_INDEX,
        FEATURE_RECORD,
        7,
        SOFTWARE_ID,
        block.subrange(16 * k, 16 * k + 16),
    )
}

/// The short frame that closes a record transaction.
pub open spec fn spec_end_record_frame() -> Seq<u8> {
    spec_short_frame(DEVICE_INDEX, FEATURE_RECORD, 8, SOFTWARE_ID, 0, 0, 0)
}

/// Builds the long frame that opens a record transaction.
pub fn start_record_frame(profile: u8) -> (r: Vec<u8>)
    ensures
        r@ == spec_start_record_frame(profile),
{
    let mut payload: Vec<u8> = Vec::new();
    payload.push(0);
    payload.push(profile);
    payload.push(0);
    payload.push(0);
    payload.push(1);
    let mut i: usize = 0;
    while i < 11
        invariant
            i <= 11,
            payload@ =~= seq![0u8, profile, 0, 0, 1] + Seq::new(i as nat, |j: int| 0u8),
        decreases 11 - i,
    {
        payload.push(0);
        proof {
            assert(Seq::new((i + 1) as nat, |j: int| 0u8)
                =~= Seq::new(i as nat, |j: int| 0u8).push(0u8));
        }
        i = i + 1;
    }
    proof {
        assert(payload@ =~= seq![0u8, profile, 0, 0, 1, 0, 0, 0, 0, 0, 0, 0, 0, 0, 0, 0]);
    }
    encode_long(DEVICE_INDEX, FEATURE_RECORD, 6, SOFTWARE_ID, &payload)
}

/// Builds the long frame that carries line `k` of the given record.
pub fn record_line_frame(block: &Vec<u8>, k: usize) -> (r: Vec<u8>)
    requires
        block@.len() == 256,
        k < 16,
    ensures
        r@ == spec_record_line_frame(block@, k as int),
{
    let mut payload: Vec<u8> = Vec::new();
    let mut j: usize = 0;
    while j < 16
        invariant
            j <= 16,
            k < 16,
            block@.len() == 256,
            payload@ =~= block@.subrange(16 * k, 16 * k + j),
        decreases 16 - j,
    {
        payload.push(block[16 * k + j]);
        proof {
            assert(block@.subrange(16 * k, 16 * k + j + 1)
                =~= block@.subrange(16 * k, 16 * k + j).push(block@[16 * k + j]));
        }
        j = j + 1;
    }
    encode_long(DEVICE_INDEX, FEATURE_RECORD, 7, SOFTWARE_ID, &payload)
}

/// Builds the short frame that closes a record transaction.
pub fn end_record_frame() -> (r: Vec<u8>)
    ensures
        r@ == spec_end_record_frame(),
{
    encode_short(DEVICE_INDEX, FEATURE_RECORD, 8, SOFTWARE_ID, 0, 0, 0)
}

/// One full record transaction for a settings record: the opening frame
/// and its response, the sixteen line frames each followed by one paced
/// response, and the closing frame followed by the three responses the
/// device queues after it — 18 sends and 20 reads, in that order.
pub open spec fn record_pass_ok(s: Seq<Action>, profile: u8, write_id: u8, rate: u16, dpi: Seq<u16>) -> bool {
    let block = spec_record_block(write_id, rate, dpi);
    &&& s.len() == 38
    &&& is_send_of(s[0], spec_start_record_frame(profile))
    &&& s[1] is Read
    &&& forall|k: int|
        0 <= k < 16 ==> is_send_of(#[trigger] s[2 * k + 2], spec_record_line_frame(block, k))
    &&& forall|k: int| 0 <= k < 16 ==> (#[trigger] s[2 * k + 3]) is Read
    &&& is_send_of(s[34], spec_end_record_frame())
    &&& s[35] is Read
    &&& s[36] is Read
    &&& s[37] is Read
}

/// Appends one full record-transaction pass for a settings record to the
/// plan under construction.
fn push_record_pass(v: &mut Vec<Action>, profile: u8, write_id: u8, rate: u16, dpi: &Vec<u16>)
    ensures
        final(v)@.len() == old(v)@.len() + 38,
        final(v)@.subrange(0, old(v)@.len() as int) == old(v)@,
        record_pass_ok(final(v)@.skip(old(v)@.len() as int), profile, write_id, rate, dpi@),
        count_sends(final(v)@) == count_sends(old(v)@) + 18,
        count_reads(final(v)@) == count_reads(old(v)@) + 20,
{
    let ghost base: int = v@.len() as int;
    let block = build_record_block(write_id, rate, dpi);
    push_send(v, start_record_frame(profile));
    push_read(v);
    let mut k: usize = 0;
    while k < 16
        invariant
            k <= 16,
            base == old(v)@.len(),
            block@ == spec_record_block(write_id, rate, dpi@),
            v@.len() == base + 2 + 2 * k,
            v@.subrange(0, base) == old(v)@,
            is_send_of(v@[base], spec_start_record_frame(profile)),
            v@[base + 1] is Read,
            forall|j: int|
                0 <= j < k ==> is_send_of(
                    #[trigger] v@[base + 2 * j + 2],
                    spec_record_line_frame(block@, j),
                ),
            forall|j: int| 0 <= j < k ==> (#[trigger] v@[base + 2 * j + 3]) is Read,
            count_sends(v@) == count_sends(old(v)@) + 1 + k,
            count_reads(v@) == count_reads(old(v)@) + 1 + k,
        decreases 16 - k,
    {
        let f = record_line_frame(&block, k);
        push_send(v, f);
        push_read(v);
        k = k + 1;
    }
    push_send(v, end_record_frame());
    push_read(v);
    push_read(v);
    push_read(v);
    proof {
        let s = v@.skip(base);
        assert forall|k2: int| 0 <= k2 < 16 implies is_send_of(
            #[trigger] s[2 * k2 + 2],
            spec_record_line_frame(block@, k2),
        ) by {
            assert(s[2 * k2 + 2] == v@[base + 2 * k2 + 2]);
        }
        assert forall|k2: int| 0 <= k2 < 16 implies (#[trigger] s[2 * k2 + 3]) is Read by {
            assert(s[2 * k2 + 3] == v@[base + 2 * k2 + 3]);
        }
        assert(record_pass_ok(s, profile, write_id, rate, dpi@));
        assert(v@.subrange(0, base) =~= old(v)@);
    }
}

/// Builds the plan of one record-transaction pass: 18 outbound frames and
/// 20 inbound reads, in transaction order.
pub fn record_pass_plan(profile: u8, write_id: u8, rate: u16, dpi: &Vec<u16>) -> (r: Vec<Action>)
    ensures
        record_pass_ok(r@, profile, write_id, rate, dpi@),
        count_sends(r@) == 18,
        count_reads(r@) == 20,
{
    let mut v: Vec<Action> = Vec::new();
    push_record_pass(&mut v, profile, write_id, rate, dpi);
    proof {
        assert(v@.skip(0) =~= v@);
    }
    v
}

/// Builds the plan of a committed settings write for a non-zero target
/// profile: the full record transaction twice — first with the sacrificial
/// write identifier, then with it incremented by one — and a closing
/// status query. The two passes carry distinct write identifiers, so the
/// records they send differ at the write-identifier byte.
pub fn apply_settings_plan(profile: u8, rate: u16, dpi: &Vec<u16>) -> (r: Vec<Action>)
    requires
        profile != 0,
    ensures
        r@.len() == 78,
        record_pass_ok(r@.subrange(0, 38), profile, FIRST_WRITE_ID, rate, dpi@),
        record_pass_ok(r@.subrange(38, 76), profile, SECOND_WRITE_ID, rate, dpi@),
        is_send_of(r@[76], crate::controller::spec_status_frame()),
        r@[77] is Read,
        count_sends(r@) == 37,
        count_reads(r@) == 41,
{
    let mut v: Vec<Action> = Vec::new();
    push_record_pass(&mut v, profile, FIRST_WRITE_ID, rate, dpi);
    proof {
        assert(v@.skip(0) =~= v@);
        assert(v@.subrange(0, 38) =~= v@);
    }
    let ghost first: Seq<Action> = v@;
    push_record_pass(&mut v, profile, SECOND_WRITE_ID, rate, dpi);
    let ghost both: Seq<Action> = v@;
    push_send(&mut v, crate::controller::status_frame());
    push_read(&mut v);
    proof {
        assert(v@.subrange(0, 38) =~= first.subrange(0, 38));
        assert(v@.subrange(38, 76) =~= both.skip(38));
    }
    v
}

/// The two passes of a committed settings write carry distinct write
/// identifiers: the records they transfer differ at the write-identifier
/// byte whatever the configuration is.
pub proof fn lemma_two_pass_records_differ(rate: u16, dpi: Seq<u16>)
    ensures
        spec_record_block(FIRST_WRITE_ID, rate, dpi)[18] == FIRST_WRITE_ID,
        spec_record_block(SECOND_WRITE_ID, rate, dpi)[18] == SECOND_WRITE_ID,
        spec_record_block(FIRST_WRITE_ID, rate, dpi)[18]
            != spec_record_block(SECOND_WRITE_ID, rate, dpi)[18],
{
    crate::block::lemma_record_write_id_byte(FIRST_WRITE_ID, rate, dpi);
    crate::block::lemma_record_write_id_byte(SECOND_WRITE_ID, rate, dpi);
}

/// Builds the plan that enables or disables the five profile slots: a
/// full record transaction for the enable record, opened for profile
/// zero — the opening frame and its response, the sixteen line frames
/// each with one paced response, and the closing frame followed by the
/// three responses the device queues after it.
pub fn enable_profile_plan(enabled: &[bool; 5]) -> (r: Vec<Action>)
    ensures
        r@.len() == 38,
        is_send_of(r@[0], spec_start_record_frame(0)),
        r@[1] is Read,
        forall|k: int|
            0 <= k < 16 ==> is_send_of(
                #[trigger] r@[2 * k + 2],
                spec_record_line_frame(spec_enable_block(enabled@), k),
            ),
        forall|k: int| 0 <= k < 16 ==> (#[trigger] r@[2 * k + 3]) is Read,
        is_send_of(r@[34], spec_end_record_frame()),
        r@[35] is Read,
        r@[36] is Read,
        r@[37] is Read,
        count_sends(r@) == 18,
        count_reads(r@) == 20,
{
    let block = build_enable_block(enabled);
    let mut v: Vec<Action> = Vec::new();
    push_send(&mut v, start_record_frame(0));
    push_read(&mut v);
    let mut k: usize = 0;
    while k < 16
        invariant
            k <= 16,
            block@ == spec_enable_block(enabled@),
            v@.len() == 2 + 2 * k,
            is_send_of(v@[0], spec_start_record_frame(0)),
            v@[1] is Read,
            forall|j: int|
                0 <= j < k ==> is_send_of(
                    #[trigger] v@[2 * j + 2],
                    spec_record_line_frame(block@, j),
                ),
            forall|j: int| 0 <= j < k ==> (#[trigger] v@[2 * j + 3]) is Read,
            count_sends(v@) == 1 + k,
            count_reads(v@) == 1 + k,
        decreases 16 - k,
    {
        let f = record_line_frame(&block, k);
        push_send(&mut v, f);
        push_read(&mut v);
        k = k + 1;
    }
    push_send(&mut v, end_record_frame());
    push_read(&mut v);
    push_read(&mut v);
    push_read(&mut v);
    v
}

} // verus!
