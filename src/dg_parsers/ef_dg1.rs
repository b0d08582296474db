//! EF.DG1: the MRZ.

use vstd::prelude::*;

use crate::data_groups::DataGroup;
use crate::dg_parsers::helpers::{
    index_children, indexed_value, outer_children, outer_children_of, tlv_get_string_value,
    utf8_of,
};
use crate::mrz::{td1_fields_of, td1_readable, td3_fields_of, MRZ};
use crate::parsed_data_groups::{ParsedDataGroup, EFDG1};
use crate::tlv::tag_map;

verus! {

/// The MRZ text of EF.DG1: the value of `5F1F` as text.
pub open spec fn dg1_mrz_text(data: Seq<u8>, tag: u8) -> Option<Seq<char>> {
    match outer_children_of(data, tag) {
        Some(ch) => utf8_of(indexed_value(tag_map(ch), 0x5F1F)),
        None => None,
    }
}

/// What decoding a file with this parser gives: `r` for the bytes `data` of
/// a file whose catalog tag is `tag`.
pub open spec fn parsed_as(data: Seq<u8>, tag: u8, r: Option<ParsedDataGroup>) -> bool {
    match dg1_mrz_text(data, tag) {
        None => r is None,
        Some(s) => {
            &&& r is Some <==> td1_readable(s) || s.len() == 88
            &&& r matches Some(p) ==> p matches ParsedDataGroup::EFDG1(d) && match d.mrz {
                MRZ::TD1(m) => td1_fields_of(m, s),
                MRZ::TD3(m) => td3_fields_of(m, s),
            }
        },
    }
}

/// Decodes EF.DG1: the MRZ under `5F1F`, a TD1 for 90 characters and a TD3
/// for 88. Gives none for another outer tag, a missing MRZ or another length.
pub fn parser(data: &Vec<u8>, data_group: &DataGroup) -> (r: Option<ParsedDataGroup>)
    ensures
        parsed_as(data@, data_group.tag, r),
{
    let children = match outer_children(data.as_slice(), data_group.tag) {
        Some(c) => c,
        None => return None,
    };
    let tlvs = index_children(children);
    let text = match tlv_get_string_value(&tlvs, 0x5F1F) {
        Some(t) => t,
        None => return None,
    };
    match MRZ::deserialize(&text) {
        Some(mrz) => Some(ParsedDataGroup::EFDG1(EFDG1 { mrz })),
        None => None,
    }
}

} // verus!
