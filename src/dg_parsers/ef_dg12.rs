//! EF.DG12: additional document details.

use vstd::prelude::*;

use crate::data_groups::DataGroup;
use crate::dg_parsers::helpers::{
    index_children, indexed_value, opt_bytes_view, opt_string_view, outer_children,
    outer_children_of, tlv_get_bytes, tlv_get_string_value, utf8_of,
};
use crate::parsed_data_groups::{ParsedDataGroup, EFDG12};
use crate::tlv::tag_map;

verus! {

/// What decoding a file with this parser gives: `r` for the bytes `data` of
/// a file whose catalog tag is `tag`.
pub open spec fn parsed_as(data: Seq<u8>, tag: u8, r: Option<ParsedDataGroup>) -> bool {
    match outer_children_of(data, tag) {
        None => r is None,
        Some(ch) => r matches Some(ParsedDataGroup::EFDG12(d)) && opt_string_view(d.issuing_authority) == utf8_of(indexed_value(tag_map(ch), 0x5F19)) && opt_string_view(d.date_of_issue) == utf8_of(indexed_value(tag_map(ch), 0x5F26)) && d.other_persons is None && opt_string_view(d.endorsements_observations) == utf8_of(indexed_value(tag_map(ch), 0x5F1B)) && opt_string_view(d.tax_exit_requirements) == utf8_of(indexed_value(tag_map(ch), 0x5F1C)) && opt_bytes_view(d.image_of_front_of_emrtd) == indexed_value(tag_map(ch), 0x5F1D) && opt_bytes_view(d.image_of_rear_of_emrtd) == indexed_value(tag_map(ch), 0x5F1E) && opt_string_view(d.personalization_timestamp) == utf8_of(indexed_value(tag_map(ch), 0x5F55)) && opt_string_view(d.personalization_device_serial_number) == utf8_of(indexed_value(tag_map(ch), 0x5F56)),
    }
}

/// Decodes EF.DG12: every field is the value of its tag, as text or bytes;
/// an absent tag leaves the field empty. Gives none for another outer tag.
pub fn parser(data: &Vec<u8>, data_group: &DataGroup) -> (r: Option<ParsedDataGroup>)
    ensures
        parsed_as(data@, data_group.tag, r),
{
    let children = match outer_children(data.as_slice(), data_group.tag) {
        Some(c) => c,
        None => return None,
    };
    let tlvs = index_children(children);
    let result = EFDG12 {
        issuing_authority: tlv_get_string_value(&tlvs, 0x5F19),
        date_of_issue: tlv_get_string_value(&tlvs, 0x5F26),
        other_persons: None,
        endorsements_observations: tlv_get_string_value(&tlvs, 0x5F1B),
        tax_exit_requirements: tlv_get_string_value(&tlvs, 0x5F1C),
        image_of_front_of_emrtd: tlv_get_bytes(&tlvs, 0x5F1D),
        image_of_rear_of_emrtd: tlv_get_bytes(&tlvs, 0x5F1E),
        personalization_timestamp: tlv_get_string_value(&tlvs, 0x5F55),
        personalization_device_serial_number: tlv_get_string_value(&tlvs, 0x5F56),
    };
    Some(ParsedDataGroup::EFDG12(result))
}

} // verus!
