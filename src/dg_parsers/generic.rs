//! What files without a decoder of their own share: their TLV values.

use vstd::prelude::*;

use crate::data_groups::DataGroup;
use crate::parsed_data_groups::ParsedDataGroup;
use crate::tlv::{get_tlv_value_bytes, models, spec_value_bytes, Tlv, TlvModel};

verus! {

/// The views of a sequence of byte vectors.
pub open spec fn vec_views(s: Seq<Vec<u8>>) -> Seq<Seq<u8>> {
    s.map_values(|v: Vec<u8>| v@)
}

/// The values of TLVs in order; one that has no value is left out.
pub open spec fn values_of(s: Seq<TlvModel>) -> Seq<Seq<u8>>
    decreases s.len(),
{
    if s.len() == 0 {
        Seq::empty()
    } else {
        match spec_value_bytes(s.last()) {
            Some(v) => values_of(s.drop_last()).push(v),
            None => values_of(s.drop_last()),
        }
    }
}

/// The values of TLVs in order; one that has no value is left out.
pub fn collect_values(items: &Vec<Tlv>) -> (r: Vec<Vec<u8>>)
    ensures
        vec_views(r@) == values_of(models(items@)),
{
    let mut out: Vec<Vec<u8>> = Vec::new();
    let mut i: usize = 0;
    while i < items.len()
        invariant
            i <= items@.len(),
            vec_views(out@) == values_of(models(items@).subrange(0, i as int)),
        decreases items.len() - i,
    {
        let ghost pre = models(items@).subrange(0, i as int);
        let ghost next = models(items@).subrange(0, i + 1);
        assert(next.drop_last() =~= pre);
        assert(next.last() == items@[i as int]@);
        match get_tlv_value_bytes(&items[i]) {
            Some(v) => {
                let ghost before = out@;
                out.push(v);
                assert(vec_views(out@) =~= vec_views(before).push(out@.last()@));
            },
            None => {},
        }
        i = i + 1;
    }
    assert(models(items@).subrange(0, items@.len() as int) =~= models(items@));
    out
}


/// Files without a decoder of their own are kept as raw bytes only.
pub fn parser(data: &Vec<u8>, data_group: &DataGroup) -> (r: Option<ParsedDataGroup>)
    ensures
        r is None,
{
    None
}

} // verus!
