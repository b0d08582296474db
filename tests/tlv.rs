use passauf::tlv::{
    encode_all, get_tlv_by_tag, get_tlv_constructed_value, get_tlv_tag, get_tlv_value_bytes, get_tlvs_by_tag,
    sort_tlvs_by_tag, Tlv,
};

#[test]
fn parse_and_encode_primitive() {
    let bytes = vec![0x5F, 0x01, 0x04, 0x30, 0x31, 0x30, 0x37, 0xAA];
    let (tlv, used) = Tlv::parse(&bytes).unwrap();
    assert_eq!(tlv.tag, 0x5F01);
    assert_eq!(tlv.value, vec![0x30, 0x31, 0x30, 0x37]);
    assert_eq!(used, 7);
    assert_eq!(tlv.to_vec(), bytes[..7].to_vec());
}

#[test]
fn encode_after_parse_gives_input_back() {
    let mut long = vec![0x04, 0x82, 0x01, 0x20];
    long.extend(std::iter::repeat(7u8).take(0x120));
    let inputs: Vec<Vec<u8>> = vec![
        vec![],
        vec![0x80, 0x00],
        vec![0x80, 0x01, 0xFF, 0x7F, 0x22, 0x03, 0x80, 0x01, 0x00],
        {
            let mut v = vec![0x53, 0x81, 0x80];
            v.extend(std::iter::repeat(1u8).take(0x80));
            v
        },
        long,
    ];
    for b in inputs {
        let tlvs = Tlv::parse_all(&b);
        assert_eq!(encode_all(&tlvs), b);
    }
}

#[test]
fn long_length_forms() {
    for (field, n) in [
        (vec![0x81u8, 0xFF], 0xFFusize),
        (vec![0x82, 0x01, 0x00], 0x100),
        (vec![0x83, 0x01, 0x00, 0x00], 0x1_0000),
    ] {
        let mut b = vec![0x04];
        b.extend(field);
        b.extend(std::iter::repeat(9u8).take(n));
        let (t, used) = Tlv::parse(&b).unwrap();
        assert_eq!(t.value.len(), n);
        assert_eq!(used, b.len());
        assert_eq!(t.to_vec(), b);
    }
}

#[test]
fn non_minimal_length_is_read_but_written_shortest() {
    let b = vec![0x04, 0x81, 0x01, 0xAA];
    let (t, _) = Tlv::parse(&b).unwrap();
    assert_eq!(t.to_vec(), vec![0x04, 0x01, 0xAA]);
}

#[test]
fn malformed_inputs_are_refused() {
    assert!(Tlv::parse(&[]).is_none());
    assert!(Tlv::parse(&[0x04]).is_none());
    assert!(Tlv::parse(&[0x04, 0x05, 0x01]).is_none());
    assert!(Tlv::parse(&[0x04, 0x80]).is_none());
    assert!(Tlv::parse(&[0x04, 0x85, 0, 0, 0, 0, 1]).is_none());
    assert!(Tlv::parse(&[0x5F]).is_none());
    assert!(Tlv::parse(&[0x5F, 0x81, 0x00]).is_none());
    let tlvs = Tlv::parse_all(&[0x80, 0x01, 0x05, 0x81, 0x09]);
    assert_eq!(tlvs.len(), 1);
}

#[test]
fn constructed_children_and_value_bytes() {
    let b = vec![0x7F, 0x61, 0x06, 0x02, 0x01, 0x01, 0x80, 0x01, 0x09];
    let (t, _) = Tlv::parse(&b).unwrap();
    let children = get_tlv_constructed_value(&t).unwrap();
    assert_eq!(children.len(), 2);
    assert_eq!(get_tlv_tag(&children[0]), 0x02);
    assert_eq!(children[1].value, vec![9]);
    assert!(get_tlv_value_bytes(&t).is_none());
    assert_eq!(get_tlv_value_bytes(&children[1]), Some(vec![9]));
    assert!(get_tlv_constructed_value(&children[1]).is_none());
    let single = Tlv { tag: 0xA1, value: vec![0x80, 0x01, 0x07] };
    assert_eq!(get_tlv_value_bytes(&single), Some(vec![0x80, 0x01, 0x07]));
}

#[test]
fn lookups_by_tag() {
    let tlvs = Tlv::parse_all(&[0x80, 0x01, 0x01, 0x81, 0x01, 0x02, 0x80, 0x01, 0x03]);
    assert_eq!(get_tlv_by_tag(&tlvs, 0x80).unwrap().value, vec![1]);
    assert!(get_tlv_by_tag(&tlvs, 0x82).is_none());
    let all = get_tlvs_by_tag(&tlvs, 0x80);
    assert_eq!(all.len(), 2);
    assert_eq!(all[1].value, vec![3]);
    let map = sort_tlvs_by_tag(tlvs);
    assert_eq!(map.get(0x80).unwrap().value, vec![3]);
    assert!(map.contains_key(0x81));
    assert!(!map.contains_key(0x99));
}

#[test]
fn agrees_with_iso7816_tlv_crate() {
    let inputs: Vec<Vec<u8>> = vec![
        vec![0x60, 0x07, 0x5F, 0x01, 0x04, 0x30, 0x31, 0x30, 0x37, 0x5C, 0x01, 0x61],
        vec![0x7F, 0x61, 0x06, 0x02, 0x01, 0x01, 0x80, 0x01, 0x09],
        vec![0x99, 0x02, 0x90, 0x00, 0x8E, 0x08, 1, 2, 3, 4, 5, 6, 7, 8],
        {
            let mut v = vec![0x04, 0x82, 0x01, 0x00];
            v.extend(std::iter::repeat(3u8).take(0x100));
            v
        },
    ];
    for b in inputs {
        let ours = Tlv::parse_all(&b);
        let theirs = iso7816_tlv::ber::Tlv::parse_all(&b);
        assert_eq!(ours.len(), theirs.len());
        for (o, t) in ours.iter().zip(theirs.iter()) {
            assert_eq!(o.to_vec(), t.to_vec());
            let tag_bytes = t.tag().to_bytes();
            let tag = tag_bytes.iter().fold(0u16, |acc, x| (acc << 8) | *x as u16);
            assert_eq!(o.tag, tag);
        }
    }
}
