use cccid::{ccc_template_bytes, CccError, CCCID, CCC_ID_OFFS, CCC_TMPL_LEN, YKPIV_CCCID_SIZE};

const TEMPLATE: [u8; 51] = [
    0xf0, 0x15, 0xa0, 0x00, 0x00, 0x01, 0x16, 0xff, 0x02, 0x00, 0x00, 0x00, 0x00, 0x00, 0x00, 0x00,
    0x00, 0x00, 0x00, 0x00, 0x00, 0x00, 0x00, 0xf1, 0x01, 0x21, 0xf2, 0x01, 0x21, 0xf3, 0x00, 0xf4,
    0x01, 0x00, 0xf5, 0x01, 0x10, 0xf6, 0x00, 0xf7, 0x00, 0xfa, 0x00, 0xfb, 0x00, 0xfc, 0x00, 0xfd,
    0x00, 0xfe, 0x00,
];

#[test]
fn layout_constants() {
    assert_eq!(CCC_TMPL_LEN, 51);
    assert_eq!(CCC_ID_OFFS, 9);
    assert_eq!(YKPIV_CCCID_SIZE, 14);
}

#[test]
fn template_bytes_are_canonical() {
    assert_eq!(ccc_template_bytes(), TEMPLATE.to_vec());
}

#[test]
fn set_then_get_ones() {
    let id = CCCID([0x01; 14]);
    let obj = id.set();
    assert_eq!(obj.len(), 51);
    assert_eq!(CCCID::get(Ok(obj)), Ok(CCCID([0x01; 14])));
}

#[test]
fn get_rejects_one_byte_short() {
    assert_eq!(CCCID::get(Ok(vec![0u8; 50])), Err(CccError::GenericError));
}

#[test]
fn get_rejects_one_byte_long() {
    let mut obj = CCCID([0x01; 14]).set();
    obj.push(0);
    assert_eq!(CCCID::get(Ok(obj)), Err(CccError::GenericError));
}

#[test]
fn get_rejects_empty_object() {
    assert_eq!(CCCID::get(Ok(Vec::new())), Err(CccError::GenericError));
}

#[test]
fn get_passes_device_errors_through() {
    assert_eq!(CCCID::get(Err(CccError::PcscError)), Err(CccError::PcscError));
    assert_eq!(CCCID::get(Err(CccError::NotFound)), Err(CccError::NotFound));
    assert_eq!(
        CCCID::get(Err(CccError::AuthenticationError)),
        Err(CccError::AuthenticationError)
    );
}

#[test]
fn get_reads_identifier_slot() {
    let mut obj = TEMPLATE.to_vec();
    for i in 0..14 {
        obj[9 + i] = (i as u8) + 0x30;
    }
    let expected: [u8; 14] = [
        0x30, 0x31, 0x32, 0x33, 0x34, 0x35, 0x36, 0x37, 0x38, 0x39, 0x3a, 0x3b, 0x3c, 0x3d,
    ];
    assert_eq!(CCCID::get(Ok(obj)), Ok(CCCID(expected)));
}

#[test]
fn set_only_touches_identifier_slot() {
    let id = CCCID([0xab; 14]);
    let obj = id.set();
    assert_eq!(obj.len(), TEMPLATE.len());
    for i in 0..obj.len() {
        if (9..23).contains(&i) {
            assert_eq!(obj[i], 0xab);
        } else {
            assert_eq!(obj[i], TEMPLATE[i]);
        }
    }
}

#[test]
fn set_of_zero_identifier_is_template() {
    assert_eq!(CCCID([0u8; 14]).set(), TEMPLATE.to_vec());
}

#[test]
fn round_trip_varied_bytes() {
    let bytes: [u8; 14] = [
        0xff, 0x00, 0x7f, 0x80, 0x01, 0xfe, 0x10, 0x20, 0x30, 0x40, 0x50, 0x60, 0x70, 0x99,
    ];
    let id = CCCID(bytes);
    assert_eq!(CCCID::get(Ok(id.set())), Ok(id));
}

#[test]
fn equality_is_by_bytes() {
    let a = CCCID([0x05; 14]);
    let b = CCCID([0x05; 14]);
    let mut c_bytes = [0x05u8; 14];
    c_bytes[13] = 0x06;
    let c = CCCID(c_bytes);
    assert!(a == a);
    assert!(a == b && b == a);
    assert!(a != c && c != a);
    let d = CCCID([0x05; 14]);
    assert!(a == b && b == d && a == d);
}

#[test]
fn generate_gives_fresh_identifiers() {
    let a = CCCID::generate().expect("entropy available");
    let b = CCCID::generate().expect("entropy available");
    assert_eq!(a.0.len(), 14);
    assert_ne!(a.0, [0u8; 14]);
    assert_ne!(a, b);
}

#[test]
fn generated_identifier_round_trips() {
    let id = CCCID::generate().expect("entropy available");
    assert_eq!(CCCID::get(Ok(id.set())), Ok(id));
}

#[test]
fn from_drawn_wraps_the_drawn_bytes() {
    assert_eq!(CCCID::from_drawn(Some([0x01; 14])), Ok(CCCID([0x01; 14])));
    assert_ne!(CCCID::from_drawn(Some([0x01; 14])), Ok(CCCID([0x00; 14])));
}

#[test]
fn from_drawn_differs_when_bytes_differ() {
    let mut other = [0x01u8; 14];
    other[0] = 0x02;
    let a = CCCID::from_drawn(Some([0x01; 14])).unwrap();
    let b = CCCID::from_drawn(Some(other)).unwrap();
    assert_ne!(a, b);
    let c = CCCID::from_drawn(Some([0x01; 14])).unwrap();
    assert_eq!(a, c);
}

#[test]
fn from_drawn_without_entropy_is_randomness_error() {
    assert_eq!(CCCID::from_drawn(None), Err(CccError::RandomnessError));
}
