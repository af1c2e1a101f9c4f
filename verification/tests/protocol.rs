use slean::error::SleanError;
use slean::protocol::{FrameDescriptor, MSG_TYPE, ERR, MASK_22_24, MAX_MSG_SIZE_BYTES, REPL, REQ};

#[test]
fn create_and_check() {
    let zero = 0u64;
    let fd: FrameDescriptor = zero.try_into().unwrap();
    assert!(fd.desc() == zero);
    assert!(fd.len() == 0);

    let _2mb = MAX_MSG_SIZE_BYTES as u64;
    let fd: FrameDescriptor = _2mb.try_into().unwrap();
    assert!(fd.len() == MAX_MSG_SIZE_BYTES);

    let _1kb = 1000;
    let fd: FrameDescriptor = _1kb.try_into().unwrap();
    assert!(fd.len() == _1kb as u32);
    //a broken one
    let msg = MASK_22_24 + 1000;
    let fdr: Result<FrameDescriptor, SleanError> = msg.try_into();
    assert!(fdr.is_err());
}

#[test]
fn check_req() {
    let zero = 1u64 | (REQ << 60);
    let fd: FrameDescriptor = zero.try_into().unwrap();
    assert!(fd.len() == 1);
    assert!(fd.is_req());
    assert!(!fd.is_repl());
    assert!(!fd.is_err());
}

#[test]
fn check_repl() {
    let zero = 1u64 | (REPL << 60);
    let fd: FrameDescriptor = zero.try_into().unwrap();
    assert!(fd.len() == 1);
    assert!(!fd.is_req());
    assert!(fd.is_repl());
    assert!(!fd.is_err());
}

#[test]
fn check_err() {
    let zero = 1u64 | (ERR << 60);
    let fd: FrameDescriptor = zero.try_into().unwrap();
    assert!(fd.len() == 1);
    assert!(!fd.is_req());
    assert!(!fd.is_repl());
    assert!(fd.is_err());
}

#[test]
fn too_long_frame_is_refused_with_its_length() {
    let desc = (MAX_MSG_SIZE_BYTES as u64) + 1;
    match FrameDescriptor::try_from(desc) {
        Err(SleanError::InvalidFrameLen(l)) => assert_eq!(l, MAX_MSG_SIZE_BYTES + 1),
        other => panic!("unexpected {:?}", other),
    }
}

#[test]
fn header_bits_refused_with_the_descriptor() {
    let desc = (1u64 << 23) | 5;
    match FrameDescriptor::try_from(desc) {
        Err(SleanError::InvalidFrameHeader(d)) => assert_eq!(d, desc),
        other => panic!("unexpected {:?}", other),
    }
}

#[test]
fn built_descriptors_roundtrip() {
    for (kind, code) in [(MSG_TYPE::REQ, REQ), (MSG_TYPE::REPL, REPL), (MSG_TYPE::ERR, ERR)] {
        for len in [0u32, 1, 77, MAX_MSG_SIZE_BYTES] {
            let d = FrameDescriptor::build_desc(kind, len);
            assert_eq!(d, (code << 60) | len as u64);
            let fd = FrameDescriptor::try_from(d).unwrap();
            assert_eq!(fd.len(), len);
            assert_eq!(fd.is_req(), kind == MSG_TYPE::REQ);
            assert_eq!(fd.is_repl(), kind == MSG_TYPE::REPL);
            assert_eq!(fd.is_err(), kind == MSG_TYPE::ERR);
        }
    }
}

#[test]
fn extract_len_keeps_low_21_bits() {
    assert_eq!(FrameDescriptor::extract_len(0xFFFF_FFFF_FFFF_FFFF), 0x1F_FFFF);
    assert_eq!(FrameDescriptor::extract_len((REQ << 60) | 42), 42);
    assert_eq!(FrameDescriptor::max_size(), 2_097_144);
}

#[test]
fn descriptor_text_is_upper_hex() {
    let fd = FrameDescriptor::try_from((REPL << 60) | 0x2A).unwrap();
    assert_eq!(fd.to_text(), "800000000000002A");
}

#[test]
fn descriptor_debug_text_is_padded_hex_and_length() {
    let fd = FrameDescriptor::try_from(1000u64).unwrap();
    assert_eq!(fd.debug_text(), "Plain 0x000000000003E8, len: 1000");
    let fd = FrameDescriptor::try_from(FrameDescriptor::build_desc(MSG_TYPE::REQ, 1)).unwrap();
    assert_eq!(fd.debug_text(), "Plain 0x1000000000000001, len: 1");
}

#[test]
fn descriptor_converts_back_to_its_value() {
    let value = FrameDescriptor::build_desc(MSG_TYPE::ERR, 77);
    let fd = FrameDescriptor::try_from(value).unwrap();
    let back: u64 = fd.into();
    assert_eq!(back, value);
}
