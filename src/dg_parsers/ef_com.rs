//! EF.COM: LDS version, Unicode version and the list of data groups.

use vstd::prelude::*;

use crate::data_groups::DataGroup;
use crate::dg_parsers::helpers::{
    index_children, indexed_value, opt_bytes_view, opt_string_view, outer_children,
    outer_children_of, string_from_utf8, tlv_get_bytes, utf8_of,
};
use crate::parsed_data_groups::{EFCom, ParsedDataGroup};
use crate::tlv::{tag_map, TlvModel};

verus! {

/// The LDS version: the value of `5F01` when it is 4 bytes.
pub open spec fn ef_com_lds_version(m: Map<u16, TlvModel>) -> Option<Seq<u8>> {
    match indexed_value(m, 0x5F01) {
        Some(v) => if v.len() == 4 {
            Some(v)
        } else {
            None
        },
        None => None,
    }
}

/// Six digits `XXYYZZ` written `XX.YY.ZZ`.
pub open spec fn dotted_version(v: Seq<u8>) -> Seq<u8> {
    v.subrange(0, 2) + seq![0x2Eu8] + v.subrange(2, 4) + seq![0x2Eu8] + v.subrange(4, 6)
}

/// The Unicode version: the six digits of `5F36` with dots inserted.
pub open spec fn ef_com_unicode_version(m: Map<u16, TlvModel>) -> Option<Seq<char>> {
    match indexed_value(m, 0x5F36) {
        Some(v) => if v.len() == 6 {
            utf8_of(Some(dotted_version(v)))
        } else {
            None
        },
        None => None,
    }
}

/// What decoding a file with this parser gives: `r` for the bytes `data` of
/// a file whose catalog tag is `tag`.
pub open spec fn parsed_as(data: Seq<u8>, tag: u8, r: Option<ParsedDataGroup>) -> bool {
    match outer_children_of(data, tag) {
        None => r is None,
        Some(ch) => match indexed_value(tag_map(ch), 0x5C) {
            None => r is None,
            Some(list) => r matches Some(ParsedDataGroup::EFCom(c)) && c.data_group_tag_list@
                == list && opt_bytes_view(c.lds_version) == ef_com_lds_version(tag_map(ch))
                && opt_string_view(c.unicode_version) == ef_com_unicode_version(tag_map(ch)),
        },
    }
}

/// Decodes EF.COM. Gives none when the outer tag is not the catalog's or the
/// data group tag list `5C` is missing.
pub fn parser(data: &Vec<u8>, data_group: &DataGroup) -> (r: Option<ParsedDataGroup>)
    ensures
        parsed_as(data@, data_group.tag, r),
{
    let children = match outer_children(data.as_slice(), data_group.tag) {
        Some(c) => c,
        None => return None,
    };
    let tlvs = index_children(children);
    let data_group_tag_list = match tlv_get_bytes(&tlvs, 0x5C) {
        Some(list) => list,
        None => return None,
    };
    let lds_version = match tlv_get_bytes(&tlvs, 0x5F01) {
        Some(v) => if v.len() == 4 {
            Some(v)
        } else {
            None
        },
        None => None,
    };
    let unicode_version = match tlv_get_bytes(&tlvs, 0x5F36) {
        Some(v) => if v.len() == 6 {
            let mut dotted: Vec<u8> = Vec::new();
            dotted.push(v[0]);
            dotted.push(v[1]);
            dotted.push(0x2E);
            dotted.push(v[2]);
            dotted.push(v[3]);
            dotted.push(0x2E);
            dotted.push(v[4]);
            dotted.push(v[5]);
            assert(dotted@ =~= dotted_version(v@));
            string_from_utf8(dotted)
        } else {
            None
        },
        None => None,
    };
    Some(ParsedDataGroup::EFCom(EFCom { lds_version, unicode_version, data_group_tag_list }))
}

} // verus!
