//! What the parsers of the elementary files share: the outer template, TLV
//! values by tag, and text.

use vstd::prelude::*;
use vstd::utf8::{decode_utf8, valid_utf8};

use crate::tlv::{
    get_tlv_constructed_value, get_tlv_value_bytes, models, sort_tlvs_by_tag, spec_parse_prefix, spec_parse_tlv, spec_value_bytes,
    tag_constructed, tag_is_constructed, Tlv, TlvMap, TlvModel,
};

verus! {

/// Relies on `String::from_utf8`: the bytes decoded as UTF-8, or none when
/// they are not valid UTF-8.
#[verifier::external_body]
pub(crate) fn string_from_utf8(bytes: Vec<u8>) -> (r: Option<String>)
    ensures
        r is Some <==> valid_utf8(bytes@),
        r matches Some(s) ==> s@ == decode_utf8(bytes@),
{
    String::from_utf8(bytes).ok()
}

/// The children of the outer template of a file, when the file begins with
/// a constructed TLV that carries the expected tag.
pub open spec fn outer_children_of(data: Seq<u8>, tag: u8) -> Option<Seq<TlvModel>> {
    match spec_parse_tlv(data) {
        Some((t, n)) => if t.tag == tag as u16 && tag_is_constructed(t.tag) {
            Some(spec_parse_prefix(t.value))
        } else {
            None
        },
        None => None,
    }
}

/// Reads the outer template of a file and gives its children; none when the
/// file does not begin with a constructed TLV carrying `tag`.
pub fn outer_children(data: &[u8], tag: u8) -> (r: Option<Vec<Tlv>>)
    ensures
        match outer_children_of(data@, tag) {
            Some(ch) => r is Some && models(r.unwrap()@) == ch,
            None => r is None,
        },
{
    match Tlv::parse(data) {
        Some((t, _)) => {
            if t.tag == tag as u16 && tag_constructed(t.tag) {
                get_tlv_constructed_value(&t)
            } else {
                None
            }
        },
        None => None,
    }
}

/// The value of the TLV indexed under `tag`, if there is one with a value.
pub open spec fn indexed_value(m: Map<u16, TlvModel>, tag: u16) -> Option<Seq<u8>> {
    if m.contains_key(tag) {
        spec_value_bytes(m[tag])
    } else {
        None
    }
}

/// Text from optional bytes: none when absent or not valid UTF-8.
pub open spec fn utf8_of(v: Option<Seq<u8>>) -> Option<Seq<char>> {
    match v {
        Some(b) => if valid_utf8(b) {
            Some(decode_utf8(b))
        } else {
            None
        },
        None => None,
    }
}

pub open spec fn opt_bytes_view(o: Option<Vec<u8>>) -> Option<Seq<u8>> {
    match o {
        Some(v) => Some(v@),
        None => None,
    }
}

pub open spec fn opt_string_view(o: Option<String>) -> Option<Seq<char>> {
    match o {
        Some(s) => Some(s@),
        None => None,
    }
}

/// The value bytes under `tag`.
pub fn tlv_get_bytes(tlvs: &TlvMap, tag: u16) -> (r: Option<Vec<u8>>)
    ensures
        opt_bytes_view(r) == indexed_value(tlvs@, tag),
{
    match tlvs.get(tag) {
        Some(t) => get_tlv_value_bytes(&t),
        None => None,
    }
}

/// The value under `tag` as text.
pub fn tlv_get_string_value(tlvs: &TlvMap, tag: u16) -> (r: Option<String>)
    ensures
        opt_string_view(r) == utf8_of(indexed_value(tlvs@, tag)),
{
    match tlv_get_bytes(tlvs, tag) {
        Some(v) => string_from_utf8(v),
        None => None,
    }
}

/// The first value byte under `tag`.
pub fn tlv_get_byte(tlvs: &TlvMap, tag: u16) -> (r: Option<u8>)
    ensures
        r == match indexed_value(tlvs@, tag) {
            Some(v) => if v.len() > 0 {
                Some(v[0])
            } else {
                None
            },
            None => None,
        },
{
    match tlv_get_bytes(tlvs, tag) {
        Some(v) => if v.len() > 0 {
            Some(v[0])
        } else {
            None
        },
        None => None,
    }
}

/// Indexes the children of a file's outer template by tag.
pub fn index_children(children: Vec<Tlv>) -> (r: TlvMap)
    ensures
        r@ == crate::tlv::tag_map(models(children@)),
{
    sort_tlvs_by_tag(children)
}

} // verus!
