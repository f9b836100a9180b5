//! Layout of the 256-byte configuration record.
//!
//! A record is transferred as sixteen ordered 16-byte lines. Line 0 carries
//! the poll-rate code and five 16-bit DPI values in low/high byte pairs;
//! line 1 carries the write identifier the device uses to reject stale
//! writes; lines 2 through 14 are fixed bit-flag and marker patterns; lines
//! 10 and 11 hold the UTF-16LE profile name; and the last two bytes of line
//! 15 hold the big-endian checksum of everything before them.
//!
//! A second record shape enables or disables the five profile slots; its
//! first two lines carry one enable byte per slot and the rest is fill.

use vstd::prelude::*;
use crate::checksum::spec_crc16;
use crate::checksum::spec_crc_hi;
use crate::checksum::spec_crc_lo;
use crate::checksum::crc16_prefix;

verus! {

/// The poll-rate code stored in the first record byte: 1 means 1000 Hz
/// (the default for any unrecognized rate), 2 means 500 Hz, 3 means
/// 333 Hz, and 4 means 250 Hz.
pub open spec fn spec_poll_code(rate: u16) -> u8 {
    if rate == 500 {
        2
    } else if rate == 333 {
        3
    } else if rate == 250 {
        4
    } else {
        1
    }
}

/// Maps a poll rate in Hz to the code stored in the record.
pub fn poll_code(rate: u16) -> (r: u8)
    ensures
        r == spec_poll_code(rate),
{
    if rate == 500 {
        2
    } else if rate == 333 {
        3
    } else if rate == 250 {
        4
    } else {
        1
    }
}

/// The DPI value used for slot `k`: the caller's value where one was
/// given, else the firmware default for that slot. A value of zero
/// disables the slot.
pub open spec fn spec_dpi_slot(dpi: Seq<u16>, k: int) -> u16 {
    if 0 <= k < dpi.len() {
        dpi[k]
    } else if k == 0 {
        0x0190
    } else if k == 1 {
        0x028a
    } else if k == 2 {
        0x0384
    } else if k == 3 {
        0x047e
    } else {
        0
    }
}

/// Low byte of a 16-bit value, stored first in the record's DPI pairs.
pub open spec fn spec_lo(v: u16) -> u8 {
    (v % 256) as u8
}

/// High byte of a 16-bit value, stored second in the record's DPI pairs.
pub open spec fn spec_hi(v: u16) -> u8 {
    (v / 256) as u8
}

/// Line 0: poll-rate code, two marker bytes, five DPI values as low/high
/// pairs, and trailing fill.
pub open spec fn spec_line_settings(pc: u8, dpi: Seq<u16>) -> Seq<u8> {
    seq![
        pc, 0x01, 0x00,
        spec_lo(spec_dpi_slot(dpi, 0)), spec_hi(spec_dpi_slot(dpi, 0)),
        spec_lo(spec_dpi_slot(dpi, 1)), spec_hi(spec_dpi_slot(dpi, 1)),
        spec_lo(spec_dpi_slot(dpi, 2)), spec_hi(spec_dpi_slot(dpi, 2)),
        spec_lo(spec_dpi_slot(dpi, 3)), spec_hi(spec_dpi_slot(dpi, 3)),
        spec_lo(spec_dpi_slot(dpi, 4)), spec_hi(spec_dpi_slot(dpi, 4)),
        0xff, 0xff, 0xff,
    ]
}

/// Line 1: marker bytes, the write identifier in byte 2, and fill.
pub open spec fn spec_line_write_id(write_id: u8) -> Seq<u8> {
    seq![0xff, 0x00, write_id, 0x00, 0xff, 0xff, 0xff, 0xff, 0xff, 0xff, 0xff, 0xff, 0xff, 0xff, 0xff, 0xff]
}

/// The button bit-flag pattern of lines 2, 5 and 6.
pub open spec fn spec_line_buttons() -> Seq<u8> {
    seq![0x80, 0x01, 0x00, 0x01, 0x80, 0x01, 0x00, 0x02, 0x80, 0x01, 0x00, 0x04, 0x80, 0x01, 0x00, 0x08]
}

/// The pattern of line 3: two more flag groups, then fill.
pub open spec fn spec_line_buttons_ext() -> Seq<u8> {
    seq![0x80, 0x01, 0x00, 0x10, 0x90, 0x05, 0xff, 0xff, 0xff, 0xff, 0xff, 0xff, 0xff, 0xff, 0xff, 0xff]
}

/// The pattern of line 7: two flag groups, then zeros.
pub open spec fn spec_line_buttons_end() -> Seq<u8> {
    seq![0x80, 0x01, 0x00, 0x10, 0x90, 0x05, 0xff, 0xff, 0x00, 0x00, 0x00, 0x00, 0x00, 0x00, 0x00, 0x00]
}

/// A line of `0xff` fill (line 4 of a settings record, lines 2 through 14
/// of an enable record).
pub open spec fn spec_line_fill() -> Seq<u8> {
    seq![0xff, 0xff, 0xff, 0xff, 0xff, 0xff, 0xff, 0xff, 0xff, 0xff, 0xff, 0xff, 0xff, 0xff, 0xff, 0xff]
}

/// A line of zeros (lines 8 and 12).
pub open spec fn spec_line_zero() -> Seq<u8> {
    seq![0x00, 0x00, 0x00, 0x00, 0x00, 0x00, 0x00, 0x00, 0x00, 0x00, 0x00, 0x00, 0x00, 0x00, 0x00, 0x00]
}

/// The marker pattern of lines 9 and 13.
pub open spec fn spec_line_marker() -> Seq<u8> {
    seq![0x01, 0xff, 0x00, 0x00, 0x00, 0x00, 0x00, 0x00, 0x00, 0x00, 0x00, 0x01, 0xff, 0x00, 0x00, 0x00]
}

/// Line 10: the fixed profile name prefix "Profile " in UTF-16LE.
pub open spec fn spec_line_name_head() -> Seq<u8> {
    seq![0x50, 0x00, 0x72, 0x00, 0x6f, 0x00, 0x66, 0x00, 0x69, 0x00, 0x6c, 0x00, 0x65, 0x00, 0x20, 0x00]
}

/// Line 11: the profile name digit "1" in UTF-16LE, null-padded.
pub open spec fn spec_line_name_tail() -> Seq<u8> {
    seq![0x31, 0x00, 0x00, 0x00, 0x00, 0x00, 0x00, 0x00, 0x00, 0x00, 0x00, 0x00, 0x00, 0x00, 0x00, 0x00]
}

/// Line 14: zeros, then fill.
pub open spec fn spec_line_pad() -> Seq<u8> {
    seq![0x00, 0x00, 0x00, 0x00, 0x00, 0x00, 0x00, 0xff, 0xff, 0xff, 0xff, 0xff, 0xff, 0xff, 0xff, 0xff]
}

/// The first 14 bytes of line 15: fill before the two checksum bytes.
pub open spec fn spec_line_trailer_head() -> Seq<u8> {
    seq![0xff, 0xff, 0xff, 0xff, 0xff, 0xff, 0xff, 0xff, 0xff, 0xff, 0xff, 0xff, 0xff, 0xff]
}

/// The 254 bytes of a settings record that precede the checksum trailer.
pub open spec fn spec_record_prefix(write_id: u8, rate: u16, dpi: Seq<u16>) -> Seq<u8> {
    spec_line_settings(spec_poll_code(rate), dpi) + spec_line_write_id(write_id) + spec_line_buttons()
        + spec_line_buttons_ext() + spec_line_fill() + spec_line_buttons() + spec_line_buttons()
        + spec_line_buttons_end() + spec_line_zero() + spec_line_marker() + spec_line_name_head()
        + spec_line_name_tail() + spec_line_zero() + spec_line_marker() + spec_line_pad()
        + spec_line_trailer_head()
}

/// A full settings record: the 254-byte prefix followed by its checksum,
/// high byte first.
pub open spec fn spec_record_block(write_id: u8, rate: u16, dpi: Seq<u16>) -> Seq<u8> {
    let prefix = spec_record_prefix(write_id, rate, dpi);
    prefix + seq![spec_crc_hi(spec_crc16(prefix)), spec_crc_lo(spec_crc16(prefix))]
}

/// The byte that enables or disables one profile slot.
pub open spec fn spec_enable_byte(on: bool) -> u8 {
    if on {
        1
    } else {
        0
    }
}

/// Line 0 of an enable record: numbered marker groups carrying the enable
/// bytes of the first three profile slots.
pub open spec fn spec_enable_line0(enabled: Seq<bool>) -> Seq<u8> {
    seq![
        0x00, 0x01, 0x00, 0x00,
        0x00, 0x02, spec_enable_byte(enabled[0]), 0x00,
        0x00, 0x03, spec_enable_byte(enabled[1]), 0x00,
        0x00, 0x04, spec_enable_byte(enabled[2]), 0x00,
    ]
}

/// Line 1 of an enable record: the last marker group with the enable bytes
/// of the remaining two slots, then fill.
pub open spec fn spec_enable_line1(enabled: Seq<bool>) -> Seq<u8> {
    seq![
        0x00, 0x05, spec_enable_byte(enabled[3]), 0x00,
        0xff, 0xff, spec_enable_byte(enabled[4]), 0x00,
        0xff, 0xff, 0xff, 0xff, 0xff, 0xff, 0xff, 0xff,
    ]
}

/// The 254 bytes of an enable record that precede the checksum trailer:
/// the two slot lines, thirteen fill lines, and the trailer head.
pub open spec fn spec_enable_prefix(enabled: Seq<bool>) -> Seq<u8> {
    spec_enable_line0(enabled) + spec_enable_line1(enabled) + spec_line_fill() + spec_line_fill()
        + spec_line_fill() + spec_line_fill() + spec_line_fill() + spec_line_fill() + spec_line_fill()
        + spec_line_fill() + spec_line_fill() + spec_line_fill() + spec_line_fill() + spec_line_fill()
        + spec_line_fill() + spec_line_trailer_head()
}

/// A full enable record: the 254-byte prefix followed by its checksum,
/// high byte first.
pub open spec fn spec_enable_block(enabled: Seq<bool>) -> Seq<u8> {
    let prefix = spec_enable_prefix(enabled);
    prefix + seq![spec_crc_hi(spec_crc16(prefix)), spec_crc_lo(spec_crc16(prefix))]
}

fn push_line_write_id(v: &mut Vec<u8>, write_id: u8)
    ensures
        final(v)@ == old(v)@ + spec_line_write_id(write_id),
{
    v.push(0xff);
    v.push(0x00);
    v.push(write_id);
    v.push(0x00);
    let mut i: usize = 0;
    while i < 12
        invariant
            i <= 12,
            v@ =~= old(v)@ + spec_line_write_id(write_id).take(4 + i),
        decreases 12 - i,
    {
        v.push(0xff);
        i = i + 1;
    }
}

fn push_line_buttons(v: &mut Vec<u8>)
    ensures
        final(v)@ == old(v)@ + spec_line_buttons(),
{
    v.push(0x80);
    v.push(0x01);
    v.push(0x00);
    v.push(0x01);
    v.push(0x80);
    v.push(0x01);
    v.push(0x00);
    v.push(0x02);
    v.push(0x80);
    v.push(0x01);
    v.push(0x00);
    v.push(0x04);
    v.push(0x80);
    v.push(0x01);
    v.push(0x00);
    v.push(0x08);
}

fn push_line_buttons_ext(v: &mut Vec<u8>)
    ensures
        final(v)@ == old(v)@ + spec_line_buttons_ext(),
{
    v.push(0x80);
    v.push(0x01);
    v.push(0x00);
    v.push(0x10);
    v.push(0x90);
    v.push(0x05);
    let mut i: usize = 0;
    while i < 10
        invariant
            i <= 10,
            v@ =~= old(v)@ + spec_line_buttons_ext().take(6 + i),
        decreases 10 - i,
    {
        v.push(0xff);
        i = i + 1;
    }
}

fn push_line_buttons_end(v: &mut Vec<u8>)
    ensures
        final(v)@ == old(v)@ + spec_line_buttons_end(),
{
    v.push(0x80);
    v.push(0x01);
    v.push(0x00);
    v.push(0x10);
    v.push(0x90);
    v.push(0x05);
    v.push(0xff);
    v.push(0xff);
    let mut i: usize = 0;
    while i < 8
        invariant
            i <= 8,
            v@ =~= old(v)@ + spec_line_buttons_end().take(8 + i),
        decreases 8 - i,
    {
        v.push(0x00);
        i = i + 1;
    }
}

fn push_fill(v: &mut Vec<u8>, byte: u8, count: usize)
    requires
        count <= 16,
    ensures
        final(v)@ == old(v)@ + Seq::new(count as nat, |j: int| byte),
{
    let mut i: usize = 0;
    while i < count
        invariant
            i <= count,
            v@ =~= old(v)@ + Seq::new(i as nat, |j: int| byte),
        decreases count - i,
    {
        v.push(byte);
        proof {
            assert(Seq::new((i + 1) as nat, |j: int| byte)
                =~= Seq::new(i as nat, |j: int| byte).push(byte));
        }
        i = i + 1;
    }
}

fn push_line_fill(v: &mut Vec<u8>)
    ensures
        final(v)@ == old(v)@ + spec_line_fill(),
{
    push_fill(v, 0xff, 16);
    proof {
        assert(Seq::new(16, |j: int| 0xffu8) =~= spec_line_fill());
    }
}

fn push_line_zero(v: &mut Vec<u8>)
    ensures
        final(v)@ == old(v)@ + spec_line_zero(),
{
    push_fill(v, 0x00, 16);
    proof {
        assert(Seq::new(16, |j: int| 0x00u8) =~= spec_line_zero());
    }
}

fn push_line_marker(v: &mut Vec<u8>)
    ensures
        final(v)@ == old(v)@ + spec_line_marker(),
{
    v.push(0x01);
    v.push(0xff);
    push_fill(v, 0x00, 9);
    v.push(0x01);
    v.push(0xff);
    v.push(0x00);
    v.push(0x00);
    v.push(0x00);
    proof {
        assert(v@ =~= old(v)@ + spec_line_marker());
    }
}

fn push_line_name_head(v: &mut Vec<u8>)
    ensures
        final(v)@ == old(v)@ + spec_line_name_head(),
{
    v.push(0x50);
    v.push(0x00);
    v.push(0x72);
    v.push(0x00);
    v.push(0x6f);
    v.push(0x00);
    v.push(0x66);
    v.push(0x00);
    v.push(0x69);
    v.push(0x00);
    v.push(0x6c);
    v.push(0x00);
    v.push(0x65);
    v.push(0x00);
    v.push(0x20);
    v.push(0x00);
}

fn push_line_name_tail(v: &mut Vec<u8>)
    ensures
        final(v)@ == old(v)@ + spec_line_name_tail(),
{
    v.push(0x31);
    push_fill(v, 0x00, 15);
    proof {
        assert(v@ =~= old(v)@ + spec_line_name_tail());
    }
}

fn push_line_pad(v: &mut Vec<u8>)
    ensures
        final(v)@ == old(v)@ + spec_line_pad(),
{
    push_fill(v, 0x00, 7);
    push_fill(v, 0xff, 9);
    proof {
        assert(v@ =~= old(v)@ + spec_line_pad());
    }
}

fn push_line_trailer_head(v: &mut Vec<u8>)
    ensures
        final(v)@ == old(v)@ + spec_line_trailer_head(),
{
    push_fill(v, 0xff, 14);
    proof {
        assert(v@ =~= old(v)@ + spec_line_trailer_head());
    }
}

/// Resolves the DPI value for one slot from the caller's table.
fn dpi_slot(dpi: &Vec<u16>, k: usize) -> (r: u16)
    requires
        k < 5,
    ensures
        r == spec_dpi_slot(dpi@, k as int),
{
    if k < dpi.len() {
        dpi[k]
    } else if k == 0 {
        0x0190
    } else if k == 1 {
        0x028a
    } else if k == 2 {
        0x0384
    } else if k == 3 {
        0x047e
    } else {
        0
    }
}

fn push_line_settings(v: &mut Vec<u8>, rate: u16, dpi: &Vec<u16>)
    ensures
        final(v)@ == old(v)@ + spec_line_settings(spec_poll_code(rate), dpi@),
{
    v.push(poll_code(rate));
    v.push(0x01);
    v.push(0x00);
    let mut k: usize = 0;
    while k < 5
        invariant
            k <= 5,
            v@ =~= old(v)@ + spec_line_settings(spec_poll_code(rate), dpi@).take(3 + 2 * k),
        decreases 5 - k,
    {
        let d = dpi_slot(dpi, k);
        v.push((d % 256) as u8);
        v.push((d / 256) as u8);
        k = k + 1;
    }
    v.push(0xff);
    v.push(0xff);
    v.push(0xff);
    proof {
        assert(v@ =~= old(v)@ + spec_line_settings(spec_poll_code(rate), dpi@));
    }
}

/// Appends the big-endian checksum of everything already in `v` to `v`.
fn push_checksum(v: &mut Vec<u8>)
    ensures
        final(v)@ == old(v)@
            + seq![spec_crc_hi(spec_crc16(old(v)@)), spec_crc_lo(spec_crc16(old(v)@))],
{
    let n = v.len();
    let crc = crc16_prefix(v, n);
    proof {
        assert(v@.take(n as int) =~= v@);
    }
    v.push((crc / 256) as u8);
    v.push((crc % 256) as u8);
    proof {
        assert(v@ =~= old(v)@
            + seq![spec_crc_hi(spec_crc16(old(v)@)), spec_crc_lo(spec_crc16(old(v)@))]);
    }
}

/// Builds a full settings record for the given write identifier, poll rate
/// and DPI table, checksum trailer included.
pub fn build_record_block(write_id: u8, rate: u16, dpi: &Vec<u16>) -> (r: Vec<u8>)
    ensures
        r@ == spec_record_block(write_id, rate, dpi@),
        r@.len() == 256,
{
    let mut v: Vec<u8> = Vec::new();
    push_line_settings(&mut v, rate, dpi);
    push_line_write_id(&mut v, write_id);
    push_line_buttons(&mut v);
    push_line_buttons_ext(&mut v);
    push_line_fill(&mut v);
    push_line_buttons(&mut v);
    push_line_buttons(&mut v);
    push_line_buttons_end(&mut v);
    push_line_zero(&mut v);
    push_line_marker(&mut v);
    push_line_name_head(&mut v);
    push_line_name_tail(&mut v);
    push_line_zero(&mut v);
    push_line_marker(&mut v);
    push_line_pad(&mut v);
    push_line_trailer_head(&mut v);
    proof {
        assert(v@ =~= spec_record_prefix(write_id, rate, dpi@));
    }
    push_checksum(&mut v);
    v
}

/// Builds a full enable record from the five profile slot switches,
/// checksum trailer included.
pub fn build_enable_block(enabled: &[bool; 5]) -> (r: Vec<u8>)
    ensures
        r@ == spec_enable_block(enabled@),
        r@.len() == 256,
{
    let e0: u8 = if enabled[0] { 1 } else { 0 };
    let e1: u8 = if enabled[1] { 1 } else { 0 };
    let e2: u8 = if enabled[2] { 1 } else { 0 };
    let e3: u8 = if enabled[3] { 1 } else { 0 };
    let e4: u8 = if enabled[4] { 1 } else { 0 };
    let mut v: Vec<u8> = Vec::new();
    v.push(0x00);
    v.push(0x01);
    v.push(0x00);
    v.push(0x00);
    v.push(0x00);
    v.push(0x02);
    v.push(e0);
    v.push(0x00);
    v.push(0x00);
    v.push(0x03);
    v.push(e1);
    v.push(0x00);
    v.push(0x00);
    v.push(0x04);
    v.push(e2);
    v.push(0x00);
    v.push(0x00);
    v.push(0x05);
    v.push(e3);
    v.push(0x00);
    v.push(0xff);
    v.push(0xff);
    v.push(e4);
    v.push(0x00);
    push_fill(&mut v, 0xff, 8);
    push_line_fill(&mut v);
    push_line_fill(&mut v);
    push_line_fill(&mut v);
    push_line_fill(&mut v);
    push_line_fill(&mut v);
    push_line_fill(&mut v);
    push_line_fill(&mut v);
    push_line_fill(&mut v);
    push_line_fill(&mut v);
    push_line_fill(&mut v);
    push_line_fill(&mut v);
    push_line_fill(&mut v);
    push_line_fill(&mut v);
    push_line_trailer_head(&mut v);
    proof {
        assert(v@ =~= spec_enable_prefix(enabled@));
    }
    push_checksum(&mut v);
    v
}

/// The write identifier stands at byte 18 of a settings record (byte 2 of
/// line 1), so two records built for consecutive write identifiers differ
/// there whatever the rest of the configuration is.
pub proof fn lemma_record_write_id_byte(write_id: u8, rate: u16, dpi: Seq<u16>)
    ensures
        spec_record_block(write_id, rate, dpi)[18] == write_id,
        spec_record_block(write_id, rate, dpi).len() == 256,
{
    assert(spec_record_block(write_id, rate, dpi)[18] == write_id);
}

} // verus!
