use passauf::data_groups::DataGroupEnum;
use passauf::dg_parsers::{ef_com, ef_dg1, ef_dg11, ef_dg12, ef_dg2, ef_dg5, ef_dg7};
use passauf::helpers::parse_data_group;
use passauf::mrz::MRZ;
use passauf::parsed_data_groups::{images_of, BiometricImageFormat, ParsedDataGroup, EFDG5};

fn hex(s: &str) -> Vec<u8> {
    let s: String = s.chars().filter(|c| !c.is_whitespace()).collect();
    (0..s.len())
        .step_by(2)
        .map(|i| u8::from_str_radix(&s[i..i + 2], 16).unwrap())
        .collect()
}

fn tlv(tag: &[u8], value: &[u8]) -> Vec<u8> {
    let mut v = tag.to_vec();
    let n = value.len();
    if n < 0x80 {
        v.push(n as u8);
    } else if n < 0x100 {
        v.extend([0x81, n as u8]);
    } else {
        v.extend([0x82, (n >> 8) as u8, n as u8]);
    }
    v.extend_from_slice(value);
    v
}

const TD1_SHORT: &str =
    "I<UTO1234567897ABCDEFGH<<<<<<<0001029<3001020UTO<<<<<<<<<<<8MUSTERMANN<<ERIKA<<<<<<<<<<<<<";

#[test]
fn ef_com_scenario() {
    let data = hex("6016 5F0104 30313037 5F3606 303430303030 5C04 61756B6C");
    let parsed = ef_com::parser(&data, &DataGroupEnum::EFCom.info()).unwrap();
    match parsed {
        ParsedDataGroup::EFCom(c) => {
            assert_eq!(c.lds_version, Some(vec![0x30, 0x31, 0x30, 0x37]));
            assert_eq!(c.unicode_version, Some("04.00.00".to_string()));
            assert_eq!(c.data_group_tag_list, vec![0x61, 0x75, 0x6B, 0x6C]);
        }
        _ => panic!("expected EF.COM"),
    }
}

#[test]
fn ef_com_without_tag_list_is_not_decoded() {
    let data = hex("6007 5F0104 30313037");
    assert!(ef_com::parser(&data, &DataGroupEnum::EFCom.info()).is_none());
}

#[test]
fn ef_com_with_wrong_outer_tag_is_not_decoded() {
    let data = hex("6106 5C04 61756B6C");
    assert!(ef_com::parser(&data, &DataGroupEnum::EFCom.info()).is_none());
}

#[test]
fn ef_dg1_td1() {
    let data = tlv(&[0x61], &tlv(&[0x5F, 0x1F], TD1_SHORT.as_bytes()));
    match ef_dg1::parser(&data, &DataGroupEnum::EFDG1.info()) {
        Some(ParsedDataGroup::EFDG1(d)) => match d.mrz {
            MRZ::TD1(m) => {
                assert_eq!(m.document_number, "123456789");
                assert_eq!(m.name_of_holder, "MUSTERMANN  ERIKA");
            }
            _ => panic!("expected TD1"),
        },
        _ => panic!("expected EF.DG1"),
    }
}

#[test]
fn ef_dg1_unknown_length_is_not_decoded() {
    let data = tlv(&[0x61], &tlv(&[0x5F, 0x1F], b"P<UTO"));
    assert!(ef_dg1::parser(&data, &DataGroupEnum::EFDG1.info()).is_none());
}

fn face_record(points: u16, format: u8, image: &[u8]) -> Vec<u8> {
    let header_len = 32 + 8 * points as usize;
    let rep_len = header_len + image.len();
    let mut d = vec![0x46, 0x41, 0x43, 0x00, 0x30, 0x31, 0x30, 0x00];
    d.extend([0, 0, 0, 0]);
    d.extend([0, 1]);
    d.extend((rep_len as u32).to_be_bytes());
    d.extend(points.to_be_bytes());
    let mut rest = vec![0u8; header_len - 6];
    rest[36 + 8 * points as usize - 20] = format;
    d.extend(rest);
    d.extend_from_slice(image);
    d
}

fn biometric_template(record: &[u8]) -> Vec<u8> {
    let header = [
        tlv(&[0x80], &[0x01, 0x01]),
        tlv(&[0x81], &[0x02]),
        tlv(&[0x82], &[0x00]),
        tlv(&[0x87], &[0x01, 0x01]),
        tlv(&[0x88], &[0x00, 0x08]),
    ]
    .concat();
    tlv(&[0x7F, 0x60], &[tlv(&[0xA1], &header), tlv(&[0x5F, 0x2E], record)].concat())
}

#[test]
fn ef_dg2_face_images() {
    let jpeg = vec![0xFF, 0xD8, 0xFF, 0xE0, 1, 2, 3];
    let group = tlv(
        &[0x7F, 0x61],
        &[
            tlv(&[0x02], &[0x02]),
            biometric_template(&face_record(0, 0, &jpeg)),
            biometric_template(&face_record(2, 1, &[9, 9])),
        ]
        .concat(),
    );
    let data = tlv(&[0x75], &group);
    match ef_dg2::parser(&data, &DataGroupEnum::EFDG2.info()) {
        Some(ParsedDataGroup::EFDG2(d)) => {
            assert_eq!(d.biometrics.len(), 2);
            assert_eq!(d.biometrics[0].data, jpeg);
            assert_eq!(d.biometrics[0].image_format, BiometricImageFormat::Jpeg);
            assert_eq!(d.biometrics[0].format_owner, vec![0x01, 0x01]);
            assert_eq!(d.biometrics[0].format_type, vec![0x00, 0x08]);
            assert_eq!(d.biometrics[0].header_version, Some(vec![0x01, 0x01]));
            assert_eq!(d.biometrics[0].biometric_sub_type, Some(0x00));
            assert_eq!(d.biometrics[0].creation_timestamp, None);
            assert_eq!(d.biometrics[1].data, vec![9, 9]);
            assert_eq!(d.biometrics[1].image_format, BiometricImageFormat::Jpeg2000);
            assert_eq!(d.biometrics[1].image_format.get_extension(), "jp2");
        }
        _ => panic!("expected EF.DG2"),
    }
}

#[test]
fn ef_dg2_skips_unsupported_versions() {
    let mut record = face_record(0, 0, &[1]);
    record[4] = 0x32;
    let group = tlv(&[0x7F, 0x61], &biometric_template(&record));
    let data = tlv(&[0x75], &group);
    match ef_dg2::parser(&data, &DataGroupEnum::EFDG2.info()) {
        Some(ParsedDataGroup::EFDG2(d)) => assert!(d.biometrics.is_empty()),
        _ => panic!("expected EF.DG2"),
    }
    assert!(ef_dg2::parser(&tlv(&[0x75], &[]), &DataGroupEnum::EFDG2.info()).is_none());
}

#[test]
fn image_extensions() {
    assert_eq!(BiometricImageFormat::Jpeg.get_extension(), "jpeg");
    assert_eq!(BiometricImageFormat::Reserved.get_extension(), "image_bin");
    assert_eq!(BiometricImageFormat::from_repr(7), BiometricImageFormat::Reserved);
}

#[test]
fn ef_dg5_and_dg7_images_in_order() {
    let data = tlv(&[0x65], &[tlv(&[0x02], &[2]), tlv(&[0x5F, 0x40], &[1, 2]), tlv(&[0x5F, 0x40], &[3])].concat());
    match ef_dg5::parser(&data, &DataGroupEnum::EFDG5.info()) {
        Some(ParsedDataGroup::EFDG5(d)) => assert_eq!(d.displayed_portraits, vec![vec![1, 2], vec![3]]),
        _ => panic!("expected EF.DG5"),
    }
    let data = tlv(&[0x67], &tlv(&[0x5F, 0x43], &[7]));
    match ef_dg7::parser(&data, &DataGroupEnum::EFDG7.info()) {
        Some(ParsedDataGroup::EFDG7(d)) => assert_eq!(d.displayed_signatures, vec![vec![7]]),
        _ => panic!("expected EF.DG7"),
    }
}

#[test]
fn ef_dg11_fields() {
    let data = tlv(
        &[0x6B],
        &[
            tlv(&[0x5C], &[0x5F, 0x0E, 0x5F, 0x2B]),
            tlv(&[0x5F, 0x0E], b"MUSTERMANN<<ERIKA"),
            tlv(&[0x5F, 0x2B], b"19640812"),
            tlv(&[0x5F, 0x16], &[0xFF, 0xD8]),
        ]
        .concat(),
    );
    match ef_dg11::parser(&data, &DataGroupEnum::EFDG11.info()) {
        Some(ParsedDataGroup::EFDG11(d)) => {
            assert_eq!(d.full_name, Some("MUSTERMANN<<ERIKA".to_string()));
            assert_eq!(d.full_date_of_birth, Some("19640812".to_string()));
            assert_eq!(d.proof_of_citizenship, Some(vec![0xFF, 0xD8]));
            assert_eq!(d.telephone, None);
        }
        _ => panic!("expected EF.DG11"),
    }
}

#[test]
fn ef_dg12_front_and_rear_images() {
    let data = tlv(
        &[0x6C],
        &[
            tlv(&[0x5F, 0x19], b"UTOPIA"),
            tlv(&[0x5F, 0x1D], &[1]),
            tlv(&[0x5F, 0x1E], &[2]),
            tlv(&[0x5F, 0x55], b"20200101120000"),
        ]
        .concat(),
    );
    match ef_dg12::parser(&data, &DataGroupEnum::EFDG12.info()) {
        Some(ParsedDataGroup::EFDG12(d)) => {
            assert_eq!(d.issuing_authority, Some("UTOPIA".to_string()));
            assert_eq!(d.image_of_front_of_emrtd, Some(vec![1]));
            assert_eq!(d.image_of_rear_of_emrtd, Some(vec![2]));
            assert_eq!(d.personalization_timestamp, Some("20200101120000".to_string()));
            assert_eq!(d.date_of_issue, None);
        }
        _ => panic!("expected EF.DG12"),
    }
}

#[test]
fn files_without_decoder_give_nothing() {
    let data = tlv(&[0x77], &[1, 2, 3]);
    assert!(parse_data_group(&data, &DataGroupEnum::EFSod.info()).is_none());
}

#[test]
fn images_to_store() {
    let dg5 = Some(ParsedDataGroup::EFDG5(EFDG5 { displayed_portraits: vec![vec![1], vec![2, 3]] }));
    let images = images_of(&dg5);
    assert_eq!(images.len(), 2);
    assert_eq!(images[1].data, vec![2, 3]);
    assert_eq!(images[1].extension, "jpeg");
    assert!(images_of(&None).is_empty());
    let group = tlv(&[0x7F, 0x61], &biometric_template(&face_record(0, 1, &[5, 6])));
    let parsed = ef_dg2::parser(&tlv(&[0x75], &group), &DataGroupEnum::EFDG2.info());
    let images = images_of(&parsed);
    assert_eq!(images.len(), 1);
    assert_eq!(images[0].data, vec![5, 6]);
    assert_eq!(images[0].extension, "jp2");
}
