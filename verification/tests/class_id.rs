use vst3_host::error::Error;
use vst3_host::module::info::CID;
use vst3_host::util::{format_class_id, parse_class_id};

#[test]
fn parse_class_id_accepts_lower_case() {
    let upper = parse_class_id("41347FD6FED64094AFBB12B7DBA1D441");
    let lower = parse_class_id("41347fd6fed64094afbb12b7dba1d441");
    let mixed = parse_class_id("41347fD6FeD64094aFBb12b7DBa1d441");
    assert!(upper.is_ok());
    assert_eq!(upper, lower);
    assert_eq!(upper, mixed);
}

#[test]
fn parse_class_id_rejects_wrong_length() {
    assert_eq!(parse_class_id(""), Err(Error::InvalidArg));
    assert_eq!(parse_class_id("41"), Err(Error::InvalidArg));
    assert_eq!(
        parse_class_id("41347FD6FED64094AFBB12B7DBA1D44"),
        Err(Error::InvalidArg)
    );
    assert_eq!(
        parse_class_id("41347FD6FED64094AFBB12B7DBA1D4411"),
        Err(Error::InvalidArg)
    );
    assert_eq!(
        parse_class_id("41347FD6FED64094AFBB12B7DBA1D44100"),
        Err(Error::InvalidArg)
    );
}

#[test]
fn parse_class_id_rejects_other_characters() {
    assert_eq!(
        parse_class_id("G1347FD6FED64094AFBB12B7DBA1D441"),
        Err(Error::InvalidArg)
    );
    assert_eq!(
        parse_class_id("41347FD6FED64094AFBB12B7DBA1D44 "),
        Err(Error::InvalidArg)
    );
    assert_eq!(
        parse_class_id("41347FD6-FED64094AFBB12B7DBA1D44"),
        Err(Error::InvalidArg)
    );
    // 32 characters, one of them outside ASCII.
    assert_eq!(
        parse_class_id("41347FD6FED64094AFBB12B7DBA1D44\u{e9}"),
        Err(Error::InvalidArg)
    );
    // 32 bytes, fewer characters.
    assert_eq!(
        parse_class_id("41347FD6FED64094AFBB12B7DBA1D4\u{e9}"),
        Err(Error::InvalidArg)
    );
}

#[test]
fn parse_class_id_reads_the_extremes() {
    assert_eq!(
        parse_class_id("00000000000000000000000000000000"),
        Ok([0u8; 16])
    );
    assert_eq!(
        parse_class_id("ffffffffffffffffffffffffffffffff"),
        Ok([0xffu8; 16])
    );
    assert_eq!(
        parse_class_id("0123456789abcdefFEDCBA9876543210"),
        Ok([
            0x01, 0x23, 0x45, 0x67, 0x89, 0xab, 0xcd, 0xef, 0xfe, 0xdc, 0xba, 0x98, 0x76, 0x54,
            0x32, 0x10
        ])
    );
}

#[test]
fn format_class_id_writes_upper_case() {
    let cid: [u8; 16] = [
        0x41, 0x34, 0x7F, 0xD6, 0xFE, 0xD6, 0x40, 0x94, 0xAF, 0xBB, 0x12, 0xB7, 0xDB, 0xA1, 0xD4,
        0x41,
    ];
    assert_eq!(format_class_id(&cid), "41347FD6FED64094AFBB12B7DBA1D441");
    assert_eq!(
        format_class_id(&[0u8; 16]),
        "00000000000000000000000000000000"
    );
    assert_eq!(
        format_class_id(&[0x0fu8; 16]),
        "0F0F0F0F0F0F0F0F0F0F0F0F0F0F0F0F"
    );
}

#[test]
fn class_id_survives_the_round_trip() {
    let mut cid = [0u8; 16];
    for seed in 0..=255u8 {
        for (i, byte) in cid.iter_mut().enumerate() {
            *byte = seed.wrapping_mul(31).wrapping_add((i as u8).wrapping_mul(17));
        }
        let text = format_class_id(&cid);
        assert_eq!(text.len(), 32);
        assert_eq!(parse_class_id(&text), Ok(cid));
        assert_eq!(parse_class_id(&text.to_lowercase()), Ok(cid));
    }
}

#[test]
fn cid_from_str_follows_the_codec() {
    let cid = CID::from_str("41347FD6FED64094AFBB12B7DBA1D441").unwrap();
    assert_eq!(cid.0[0], 0x41);
    assert_eq!(cid.0[3], 0xD6);
    assert_eq!(cid.0[15], 0x41);
    assert_eq!(CID::from_str("not a class id"), Err(Error::InvalidArg));
}

#[test]
fn class_id_matches_the_bindings() {
    // The bytes of a class id are the bytes of the interface's identifier type.
    let cid = parse_class_id("41347FD6FED64094AFBB12B7DBA1D441").unwrap();
    let tuid: vst3::Steinberg::TUID = cid.map(|b| b as _);
    let back: [u8; 16] = tuid.map(|c| c as u8);
    assert_eq!(back, cid);
    let made = vst3::uid(0x41347FD6, 0xFED64094, 0xAFBB12B7, 0xDBA1D441);
    assert_eq!(made, tuid);
}
