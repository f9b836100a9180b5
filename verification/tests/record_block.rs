use hidctl::block::build_enable_block;
use hidctl::block::build_record_block;
use hidctl::block::poll_code;

#[test]
fn line0_for_documented_dpi_table() {
    let dpi: Vec<u16> = vec![400, 800, 1600, 3200, 0];
    let block = build_record_block(0x1d, 1000, &dpi);
    assert_eq!(
        &block[0..16],
        &[0x01, 0x01, 0x00, 0x90, 0x01, 0x20, 0x03, 0x40, 0x06, 0x80, 0x0c, 0x00, 0x00, 0xff, 0xff, 0xff],
    );
}

#[test]
fn write_id_stands_at_byte_18() {
    assert_eq!(build_record_block(0x1c, 1000, &Vec::new())[18], 0x1c);
    assert_eq!(build_record_block(0x1d, 1000, &Vec::new())[18], 0x1d);
}

#[test]
fn poll_rate_codes() {
    assert_eq!(poll_code(1000), 1);
    assert_eq!(poll_code(500), 2);
    assert_eq!(poll_code(333), 3);
    assert_eq!(poll_code(250), 4);
    assert_eq!(poll_code(123), 1);
    assert_eq!(build_record_block(0x1d, 500, &Vec::new())[0], 2);
}

#[test]
fn dpi_defaults_fill_missing_slots() {
    let dpi: Vec<u16> = vec![1200];
    let block = build_record_block(0x1d, 1000, &dpi);
    // slot 1 comes from the caller: 1200 = 0x04b0, low byte first
    assert_eq!(block[3], 0xb0);
    assert_eq!(block[4], 0x04);
    // slot 2 falls back to the firmware default 0x028a
    assert_eq!(block[5], 0x8a);
    assert_eq!(block[6], 0x02);
    // slot 5 falls back to disabled
    assert_eq!(block[11], 0x00);
    assert_eq!(block[12], 0x00);
}

#[test]
fn dpi_table_beyond_five_slots_is_ignored() {
    let dpi: Vec<u16> = vec![400, 800, 1600, 3200, 0, 9999];
    let short: Vec<u16> = vec![400, 800, 1600, 3200, 0];
    assert_eq!(build_record_block(0x1d, 1000, &dpi), build_record_block(0x1d, 1000, &short));
}

#[test]
fn profile_name_lines() {
    let block = build_record_block(0x1d, 1000, &Vec::new());
    let expected: &[u8] = &[
        0x50, 0x00, 0x72, 0x00, 0x6f, 0x00, 0x66, 0x00, 0x69, 0x00, 0x6c, 0x00, 0x65, 0x00,
        0x20, 0x00,
    ];
    assert_eq!(&block[160..176], expected);
    assert_eq!(block[176], 0x31);
    assert_eq!(block[177], 0x00);
}

#[test]
fn enable_block_slot_bytes() {
    let block = build_enable_block(&[true, true, false, true, false]);
    assert_eq!(block[6], 1);
    assert_eq!(block[10], 1);
    assert_eq!(block[14], 0);
    assert_eq!(block[18], 1);
    assert_eq!(block[22], 0);
    // the marker labels around them
    assert_eq!(block[1], 0x01);
    assert_eq!(block[5], 0x02);
    assert_eq!(block[9], 0x03);
    assert_eq!(block[13], 0x04);
    assert_eq!(block[17], 0x05);
}

#[test]
fn enable_block_fill_lines() {
    let block = build_enable_block(&[false, false, false, false, false]);
    for i in 32..254 {
        assert_eq!(block[i], 0xff);
    }
}
