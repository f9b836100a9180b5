use hidctl::block::build_enable_block;
use hidctl::block::build_record_block;
use hidctl::checksum::crc16_prefix;
use hidctl::checksum::crc_update;

#[test]
fn crc_standard_check_value() {
    let data: Vec<u8> = b"123456789".to_vec();
    assert_eq!(crc16_prefix(&data, 9), 0x29b1);
}

#[test]
fn crc_update_single_zero_byte() {
    assert_eq!(crc_update(0xffff, 0x00), 0xe1f0);
}

#[test]
fn crc_empty_prefix_is_initial_value() {
    let data: Vec<u8> = vec![1, 2, 3];
    assert_eq!(crc16_prefix(&data, 0), 0xffff);
}

#[test]
fn settings_record_checksum_vector() {
    // The firmware-observed trailer for write identifier 0x1d with the
    // default DPI slots and the profile name digit "1".
    let block = build_record_block(0x1d, 1000, &Vec::new());
    assert_eq!(block.len(), 256);
    assert_eq!(block[254], 0xcd);
    assert_eq!(block[255], 0xc4);
}

#[test]
fn enable_record_checksum_vector() {
    // The firmware-observed trailer for "enable profile 1 only".
    let block = build_enable_block(&[true, false, false, false, false]);
    assert_eq!(block.len(), 256);
    assert_eq!(block[254], 0xe5);
    assert_eq!(block[255], 0xda);
}

#[test]
fn single_bit_flips_change_checksum() {
    let dpi: Vec<u16> = vec![400, 800, 1600, 3200, 0];
    let block = build_record_block(0x1d, 1000, &dpi);
    let base = crc16_prefix(&block, 254);
    for i in 0..254 {
        for bit in 0..8 {
            let mut flipped = block.clone();
            flipped[i] ^= 1u8 << bit;
            assert_ne!(crc16_prefix(&flipped, 254), base);
        }
    }
}
