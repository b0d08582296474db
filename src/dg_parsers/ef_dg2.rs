//! EF.DG2: the encoded face, as a biometric information group template.

use vstd::prelude::*;

use crate::data_groups::DataGroup;
use crate::dg_parsers::helpers::{
    indexed_value, opt_bytes_view, outer_children, outer_children_of,
    tlv_get_byte, tlv_get_bytes,
};
use crate::parsed_data_groups::{
    image_format_of, Biometric, BiometricImageFormat, ParsedDataGroup, EFDG2,
};
use crate::tlv::{
    copy_range, filter_tag, get_tlv_by_tag, get_tlvs_by_tag, models, sort_tlvs_by_tag,
    spec_parse_prefix, tag_map, Tlv, TlvModel,
};

verus! {

/// Mathematical model of a biometric.
pub struct BiometricModel {
    pub header_version: Option<Seq<u8>>,
    pub biometric_type: Option<Seq<u8>>,
    pub biometric_sub_type: Option<u8>,
    pub creation_timestamp: Option<Seq<u8>>,
    pub validity_period_from_through: Option<Seq<u8>>,
    pub creator_of_biometric_data: Option<Seq<u8>>,
    pub format_owner: Seq<u8>,
    pub format_type: Seq<u8>,
    pub data: Seq<u8>,
    pub image_format: BiometricImageFormat,
}

pub open spec fn biometric_view(b: Biometric) -> BiometricModel {
    BiometricModel {
        header_version: opt_bytes_view(b.header_version),
        biometric_type: opt_bytes_view(b.biometric_type),
        biometric_sub_type: b.biometric_sub_type,
        creation_timestamp: opt_bytes_view(b.creation_timestamp),
        validity_period_from_through: opt_bytes_view(b.validity_period_from_through),
        creator_of_biometric_data: opt_bytes_view(b.creator_of_biometric_data),
        format_owner: b.format_owner@,
        format_type: b.format_type@,
        data: b.data@,
        image_format: b.image_format,
    }
}

pub open spec fn biometric_views(s: Seq<Biometric>) -> Seq<BiometricModel> {
    s.map_values(|b: Biometric| biometric_view(b))
}

/// The ISO/IEC 19794-5 (2005) version marker `"010\0"`.
pub open spec fn is_19794_2005(d: Seq<u8>) -> bool {
    d.subrange(4, 8) == seq![0x30u8, 0x31u8, 0x30u8, 0x00u8]
}

/// The length of the first facial record, after the 14-byte general header.
pub open spec fn representation_length(d: Seq<u8>) -> nat {
    (d[14] as nat) * 0x100_0000 + (d[15] as nat) * 0x1_0000 + (d[16] as nat) * 0x100 + (d[17] as nat)
}

/// The number of feature points of the first facial record.
pub open spec fn feature_point_count(d: Seq<u8>) -> nat {
    (d[18] as nat) * 0x100 + (d[19] as nat)
}

/// The image of the first facial record of an ISO/IEC 19794-5 (2005) face
/// record, and its format from the byte at `36 + 8 * feature points`. None
/// for another version or a record that does not fit.
pub open spec fn face_image_of(d: Seq<u8>) -> Option<(Seq<u8>, BiometricImageFormat)> {
    if d.len() < 20 || !is_19794_2005(d) {
        None
    } else {
        let rep_len = representation_length(d);
        let header = 32 + 8 * feature_point_count(d);
        let format_at = 36 + 8 * feature_point_count(d);
        if header > rep_len || 14 + rep_len > d.len() || format_at >= d.len() {
            None
        } else {
            Some(
                (
                    d.subrange((14 + header) as int, (14 + rep_len) as int),
                    image_format_of(d[format_at as int]),
                ),
            )
        }
    }
}

/// The first byte of an optional value.
pub open spec fn first_byte(v: Option<Seq<u8>>) -> Option<u8> {
    match v {
        Some(b) => if b.len() > 0 {
            Some(b[0])
        } else {
            None
        },
        None => None,
    }
}

/// What a biometric information template (`7F60`) decodes to: the face
/// image of `5F2E` and the header template `A1`, which must give the format
/// owner `87` and format type `88`. Templates with ISO/IEC 39794 data
/// (`7F2E`) or without data are left out.
pub open spec fn biometric_of(bit: TlvModel) -> Option<BiometricModel> {
    let m = tag_map(spec_parse_prefix(bit.value));
    match indexed_value(m, 0x5F2E) {
        None => None,
        Some(d) => match face_image_of(d) {
            None => None,
            Some((img, format)) => if !m.contains_key(0xA1) {
                None
            } else {
                let hm = tag_map(spec_parse_prefix(m[0xA1].value));
                match (indexed_value(hm, 0x87), indexed_value(hm, 0x88)) {
                    (Some(owner), Some(kind)) => Some(
                        BiometricModel {
                            header_version: indexed_value(hm, 0x80),
                            biometric_type: indexed_value(hm, 0x81),
                            biometric_sub_type: first_byte(indexed_value(hm, 0x82)),
                            creation_timestamp: indexed_value(hm, 0x83),
                            validity_period_from_through: indexed_value(hm, 0x85),
                            creator_of_biometric_data: indexed_value(hm, 0x86),
                            format_owner: owner,
                            format_type: kind,
                            data: img,
                            image_format: format,
                        },
                    ),
                    _ => None,
                }
            },
        },
    }
}

/// The biometrics that a sequence of templates decodes to, in order.
pub open spec fn biometrics_of(s: Seq<TlvModel>) -> Seq<BiometricModel>
    decreases s.len(),
{
    if s.len() == 0 {
        Seq::empty()
    } else {
        match biometric_of(s.last()) {
            Some(b) => biometrics_of(s.drop_last()).push(b),
            None => biometrics_of(s.drop_last()),
        }
    }
}

/// Reads the image of an ISO/IEC 19794-5 face record.
fn face_image(d: &[u8]) -> (r: Option<(Vec<u8>, BiometricImageFormat)>)
    ensures
        match face_image_of(d@) {
            Some((img, format)) => r is Some && r.unwrap().0@ == img && r.unwrap().1 == format,
            None => r is None,
        },
{
    if d.len() < 20 {
        return None;
    }
    if d[4] != 0x30 || d[5] != 0x31 || d[6] != 0x30 || d[7] != 0x00 {
        assert(d@.subrange(4, 8)[0] == d@[4] && d@.subrange(4, 8)[1] == d@[5] && d@.subrange(
            4,
            8,
        )[2] == d@[6] && d@.subrange(4, 8)[3] == d@[7]);
        return None;
    }
    assert(d@.subrange(4, 8) =~= seq![0x30u8, 0x31u8, 0x30u8, 0x00u8]);
    let rep_len: u64 = (d[14] as u64) * 0x100_0000 + (d[15] as u64) * 0x1_0000 + (d[16] as u64)
        * 0x100 + (d[17] as u64);
    let points: u64 = (d[18] as u64) * 0x100 + (d[19] as u64);
    let header: u64 = 32 + 8 * points;
    let format_at: u64 = 36 + 8 * points;
    if header > rep_len || rep_len > (d.len() - 14) as u64 || format_at >= d.len() as u64 {
        return None;
    }
    let image = copy_range(d, 14 + header as usize, 14 + rep_len as usize);
    let format = BiometricImageFormat::from_repr(d[format_at as usize]);
    Some((image, format))
}

/// Decodes one biometric information template.
fn parse_biometric(bit: &Tlv) -> (r: Option<Biometric>)
    ensures
        match biometric_of(bit@) {
            Some(b) => r is Some && biometric_view(r.unwrap()) == b,
            None => r is None,
        },
{
    let children = Tlv::parse_all(bit.value.as_slice());
    let m = sort_tlvs_by_tag(children);
    let d = match tlv_get_bytes(&m, 0x5F2E) {
        Some(d) => d,
        None => return None,
    };
    let (image, format) = match face_image(d.as_slice()) {
        Some(x) => x,
        None => return None,
    };
    let header = match m.get(0xA1) {
        Some(h) => h,
        None => return None,
    };
    let hm = sort_tlvs_by_tag(Tlv::parse_all(header.value.as_slice()));
    let format_owner = match tlv_get_bytes(&hm, 0x87) {
        Some(v) => v,
        None => return None,
    };
    let format_type = match tlv_get_bytes(&hm, 0x88) {
        Some(v) => v,
        None => return None,
    };
    Some(
        Biometric {
            header_version: tlv_get_bytes(&hm, 0x80),
            biometric_type: tlv_get_bytes(&hm, 0x81),
            biometric_sub_type: tlv_get_byte(&hm, 0x82),
            creation_timestamp: tlv_get_bytes(&hm, 0x83),
            validity_period_from_through: tlv_get_bytes(&hm, 0x85),
            creator_of_biometric_data: tlv_get_bytes(&hm, 0x86),
            format_owner,
            format_type,
            data: image,
            image_format: format,
        },
    )
}

/// Decodes a biometric information group template (`7F61`): every
/// biometric information template (`7F60`) in it that decodes, in order.
pub fn parse_biometric_info_template_group_template(
    biometric_info_template_group_template_tlv: &Tlv,
) -> (r: Vec<Biometric>)
    ensures
        biometric_views(r@) == biometrics_of(
            filter_tag(
                spec_parse_prefix(biometric_info_template_group_template_tlv.value@),
                0x7F60,
            ),
        ),
{
    let children = Tlv::parse_all(biometric_info_template_group_template_tlv.value.as_slice());
    let templates = get_tlvs_by_tag(&children, 0x7F60);
    let mut biometrics: Vec<Biometric> = Vec::new();
    let mut i: usize = 0;
    while i < templates.len()
        invariant
            i <= templates@.len(),
            biometric_views(biometrics@) == biometrics_of(models(templates@).subrange(0, i as int)),
        decreases templates.len() - i,
    {
        let ghost pre = models(templates@).subrange(0, i as int);
        let ghost next = models(templates@).subrange(0, i + 1);
        assert(next.drop_last() =~= pre);
        assert(next.last() == templates@[i as int]@);
        match parse_biometric(&templates[i]) {
            Some(b) => {
                let ghost before = biometrics@;
                biometrics.push(b);
                assert(biometric_views(biometrics@) =~= biometric_views(before).push(
                    biometric_view(b),
                ));
            },
            None => {},
        }
        i = i + 1;
    }
    assert(models(templates@).subrange(0, templates@.len() as int) =~= models(templates@));
    biometrics
}

/// `ch[i]` is the first TLV of `ch` that carries `tag`.
#[verifier::opaque]
pub open spec fn first_with_tag(ch: Seq<TlvModel>, i: int, tag: u16) -> bool {
    0 <= i < ch.len() && ch[i].tag == tag && forall|j: int| 0 <= j < i ==> ch[j].tag != tag
}

/// What decoding a file with this parser gives: `r` for the bytes `data` of
/// a file whose catalog tag is `tag`.
pub open spec fn parsed_as(data: Seq<u8>, tag: u8, r: Option<ParsedDataGroup>) -> bool {
    match outer_children_of(data, tag) {
        None => r is None,
        Some(ch) => {
            &&& r is Some <==> exists|i: int| 0 <= i < ch.len() && ch[i].tag == 0x7F61
            &&& r matches Some(p) ==> p matches ParsedDataGroup::EFDG2(d) && exists|i: int|
                #[trigger] first_with_tag(ch, i, 0x7F61) && biometric_views(d.biometrics@)
                    == biometrics_of(filter_tag(spec_parse_prefix(ch[i].value), 0x7F60))
        },
    }
}

/// Decodes EF.DG2: the biometrics of its biometric information group
/// template (`7F61`), the first one when there are several. Gives none for
/// another outer tag or without a group template.
pub fn parser(data: &Vec<u8>, data_group: &DataGroup) -> (r: Option<ParsedDataGroup>)
    ensures
        parsed_as(data@, data_group.tag, r),
{
    let children = match outer_children(data.as_slice(), data_group.tag) {
        Some(c) => c,
        None => return None,
    };
    let group = match get_tlv_by_tag(&children, 0x7F61) {
        Some(g) => g,
        None => {
            assert forall|i: int| 0 <= i < models(children@).len() implies models(children@)[i].tag
                != 0x7F61 by {
                assert(models(children@)[i] == children@[i]@);
            }
            return None;
        },
    };
    let biometrics = parse_biometric_info_template_group_template(group);
    proof {
        let i = choose|i: int|
            0 <= i < children@.len() && *group == children@[i] && children@[i].tag == 0x7F61
                && forall|j: int| 0 <= j < i ==> #[trigger] children@[j].tag != 0x7F61;
        assert(models(children@)[i] == children@[i]@);
        assert forall|j: int| 0 <= j < i implies models(children@)[j].tag != 0x7F61 by {
            assert(models(children@)[j] == children@[j]@);
        }
        assert(first_with_tag(models(children@), i, 0x7F61)) by {
            reveal(first_with_tag);
        }
    }
    Some(ParsedDataGroup::EFDG2(EFDG2 { biometrics }))
}

} // verus!
