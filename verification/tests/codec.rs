use hidctl::frames::decode_status;
use hidctl::frames::encode_long;
use hidctl::frames::encode_short;
use hidctl::frames::status_response;
use hidctl::frames::ProtocolError;
use hidctl::frames::Status;

#[test]
fn encode_short_layout() {
    let f = encode_short(0xff, 0x0f, 4, 0x0a, 1, 2, 3);
    assert_eq!(f, vec![0x10, 0xff, 0x0f, 0x4a, 1, 2, 3]);
}

#[test]
fn encode_long_layout() {
    let payload: Vec<u8> = (0..16).collect();
    let f = encode_long(0xff, 0x0f, 7, 0x0a, &payload);
    assert_eq!(f.len(), 20);
    assert_eq!(&f[0..4], &[0x11, 0xff, 0x0f, 0x7a]);
    assert_eq!(&f[4..], &payload[..]);
}

#[test]
fn status_round_trip_exhaustive() {
    for e in 0..=255u8 {
        for p in 0..=255u8 {
            let resp = status_response(e, p);
            assert_eq!(resp.len(), 20);
            let decoded = decode_status(&resp).unwrap();
            assert_eq!(decoded, Status { error_code: e, profile: p });
        }
    }
}

#[test]
fn short_response_is_mismatch() {
    assert_eq!(decode_status(&Vec::new()), Err(ProtocolError::Mismatch));
    assert_eq!(decode_status(&vec![0u8; 19]), Err(ProtocolError::Mismatch));
}

#[test]
fn full_response_decodes_bytes_4_and_5() {
    let mut resp = vec![0u8; 20];
    resp[3] = 0x4a;
    resp[4] = 7;
    resp[5] = 2;
    assert_eq!(decode_status(&resp), Ok(Status { error_code: 7, profile: 2 }));
}

struct MockDevice {
    frame: Vec<u8>,
}

impl MockDevice {
    fn respond(&self) -> Vec<u8> {
        self.frame.clone()
    }
}

#[test]
fn status_decode_idempotent_against_unchanged_device() {
    let device = MockDevice { frame: status_response(0, 3) };
    let first = decode_status(&device.respond()).unwrap();
    let second = decode_status(&device.respond()).unwrap();
    assert_eq!(first, second);
    assert_eq!(first, Status { error_code: 0, profile: 3 });
}
