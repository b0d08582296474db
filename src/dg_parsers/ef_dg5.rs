//! EF.DG5: displayed portraits (`5F40`), each a JPEG.

use vstd::prelude::*;

use crate::data_groups::DataGroup;
use crate::dg_parsers::generic::{collect_values, values_of, vec_views};
use crate::dg_parsers::helpers::{outer_children, outer_children_of};
use crate::parsed_data_groups::{ParsedDataGroup, EFDG5};
use crate::tlv::{filter_tag, get_tlvs_by_tag};

verus! {

/// What decoding a file with this parser gives: `r` for the bytes `data` of
/// a file whose catalog tag is `tag`.
pub open spec fn parsed_as(data: Seq<u8>, tag: u8, r: Option<ParsedDataGroup>) -> bool {
    match outer_children_of(data, tag) {
        None => r is None,
        Some(ch) => r matches Some(ParsedDataGroup::EFDG5(d)) && vec_views(d.displayed_portraits@)
            == values_of(filter_tag(ch, 0x5F40)),
    }
}

/// Decodes EF.DG5: the values of every `5F40` TLV, in order. Gives none
/// for another outer tag.
pub fn parser(data: &Vec<u8>, data_group: &DataGroup) -> (r: Option<ParsedDataGroup>)
    ensures
        parsed_as(data@, data_group.tag, r),
{
    let children = match outer_children(data.as_slice(), data_group.tag) {
        Some(c) => c,
        None => return None,
    };
    let items = get_tlvs_by_tag(&children, 0x5F40);
    let displayed_portraits = collect_values(&items);
    Some(ParsedDataGroup::EFDG5(EFDG5 { displayed_portraits }))
}

} // verus!
