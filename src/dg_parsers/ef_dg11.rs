//! EF.DG11: additional personal details.

use vstd::prelude::*;

use crate::data_groups::DataGroup;
use crate::dg_parsers::helpers::{
    index_children, indexed_value, opt_bytes_view, opt_string_view, outer_children,
    outer_children_of, tlv_get_bytes, tlv_get_string_value, utf8_of,
};
use crate::parsed_data_groups::{ParsedDataGroup, EFDG11};
use crate::tlv::tag_map;

verus! {

/// What decoding a file with this parser gives: `r` for the bytes `data` of
/// a file whose catalog tag is `tag`.
pub open spec fn parsed_as(data: Seq<u8>, tag: u8, r: Option<ParsedDataGroup>) -> bool {
    match outer_children_of(data, tag) {
        None => r is None,
        Some(ch) => r matches Some(ParsedDataGroup::EFDG11(d)) && opt_string_view(d.full_name) == utf8_of(indexed_value(tag_map(ch), 0x5F0E)) && d.other_names is None && opt_string_view(d.personal_number) == utf8_of(indexed_value(tag_map(ch), 0x5F10)) && opt_string_view(d.full_date_of_birth) == utf8_of(indexed_value(tag_map(ch), 0x5F2B)) && opt_string_view(d.place_of_birth) == utf8_of(indexed_value(tag_map(ch), 0x5F11)) && opt_string_view(d.permanent_address) == utf8_of(indexed_value(tag_map(ch), 0x5F42)) && opt_string_view(d.telephone) == utf8_of(indexed_value(tag_map(ch), 0x5F12)) && opt_string_view(d.profession) == utf8_of(indexed_value(tag_map(ch), 0x5F13)) && opt_string_view(d.title) == utf8_of(indexed_value(tag_map(ch), 0x5F14)) && opt_string_view(d.personal_summary) == utf8_of(indexed_value(tag_map(ch), 0x5F15)) && opt_bytes_view(d.proof_of_citizenship) == indexed_value(tag_map(ch), 0x5F16) && opt_string_view(d.other_valid_td_numbers) == utf8_of(indexed_value(tag_map(ch), 0x5F17)) && opt_string_view(d.custody_information) == utf8_of(indexed_value(tag_map(ch), 0x5F18)),
    }
}

/// Decodes EF.DG11: every field is the value of its tag, as text or bytes;
/// an absent tag leaves the field empty. Gives none for another outer tag.
pub fn parser(data: &Vec<u8>, data_group: &DataGroup) -> (r: Option<ParsedDataGroup>)
    ensures
        parsed_as(data@, data_group.tag, r),
{
    let children = match outer_children(data.as_slice(), data_group.tag) {
        Some(c) => c,
        None => return None,
    };
    let tlvs = index_children(children);
    let result = EFDG11 {
        full_name: tlv_get_string_value(&tlvs, 0x5F0E),
        other_names: None,
        personal_number: tlv_get_string_value(&tlvs, 0x5F10),
        full_date_of_birth: tlv_get_string_value(&tlvs, 0x5F2B),
        place_of_birth: tlv_get_string_value(&tlvs, 0x5F11),
        permanent_address: tlv_get_string_value(&tlvs, 0x5F42),
        telephone: tlv_get_string_value(&tlvs, 0x5F12),
        profession: tlv_get_string_value(&tlvs, 0x5F13),
        title: tlv_get_string_value(&tlvs, 0x5F14),
        personal_summary: tlv_get_string_value(&tlvs, 0x5F15),
        proof_of_citizenship: tlv_get_bytes(&tlvs, 0x5F16),
        other_valid_td_numbers: tlv_get_string_value(&tlvs, 0x5F17),
        custody_information: tlv_get_string_value(&tlvs, 0x5F18),
    };
    Some(ParsedDataGroup::EFDG11(result))
}

} // verus!
