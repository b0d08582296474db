//! BER-TLV as used by ISO/IEC 7816-4 and ICAO 9303.
//!
//! A tag is one or two bytes, kept as a 16-bit number (a one-byte tag is
//! left-padded with zero). A length is one byte for 0..=0x7F, or a byte
//! 0x81..=0x84 followed by that many big-endian bytes. The value of a TLV is
//! kept as its raw bytes; the children of a constructed TLV are parsed from
//! them on demand.

use vstd::prelude::*;

verus! {

/// Mathematical model of one TLV.
pub struct TlvModel {
    pub tag: u16,
    pub value: Seq<u8>,
}

/// One BER-TLV data object.
#[derive(Debug, Clone, PartialEq, Eq)]
pub struct Tlv {
    pub tag: u16,
    pub value: Vec<u8>,
}

impl View for Tlv {
    type V = TlvModel;

    open spec fn view(&self) -> TlvModel {
        TlvModel { tag: self.tag, value: self.value@ }
    }
}

/// The models of a sequence of TLVs.
pub open spec fn models(s: Seq<Tlv>) -> Seq<TlvModel> {
    s.map_values(|t: Tlv| t@)
}

/// A tag that this codec can write: one byte whose low five bits are not all
/// set, or two bytes whose first has them all set and whose second has its
/// top bit clear.
pub open spec fn tag_valid(tag: u16) -> bool {
    if tag < 256 {
        tag % 32 != 31
    } else {
        (tag / 256) % 32 == 31 && tag % 256 < 128
    }
}

/// The first byte of a tag.
pub open spec fn tag_first_byte(tag: u16) -> int {
    if tag < 256 {
        tag as int
    } else {
        (tag / 256) as int
    }
}

/// Bit 6 of the first tag byte marks a constructed TLV.
pub open spec fn tag_is_constructed(tag: u16) -> bool {
    (tag_first_byte(tag) / 32) % 2 == 1
}

pub open spec fn model_wf(t: TlvModel) -> bool {
    tag_valid(t.tag) && t.value.len() <= 0xFFFF_FFFF
}

pub open spec fn tag_bytes(tag: u16) -> Seq<u8> {
    if tag < 256 {
        seq![tag as u8]
    } else {
        seq![(tag / 256) as u8, (tag % 256) as u8]
    }
}

/// The shortest length field for `n`.
pub open spec fn length_bytes(n: nat) -> Seq<u8> {
    if n < 0x80 {
        seq![n as u8]
    } else if n < 0x100 {
        seq![0x81u8, n as u8]
    } else if n < 0x1_0000 {
        seq![0x82u8, (n / 0x100) as u8, (n % 0x100) as u8]
    } else if n < 0x100_0000 {
        seq![0x83u8, (n / 0x1_0000) as u8, ((n / 0x100) % 0x100) as u8, (n % 0x100) as u8]
    } else {
        seq![
            0x84u8,
            (n / 0x100_0000) as u8,
            ((n / 0x1_0000) % 0x100) as u8,
            ((n / 0x100) % 0x100) as u8,
            (n % 0x100) as u8,
        ]
    }
}

/// The encoding of one TLV.
pub open spec fn encode_model(t: TlvModel) -> Seq<u8> {
    tag_bytes(t.tag) + length_bytes(t.value.len()) + t.value
}

/// The encoding of a sequence of TLVs, one after the other.
pub open spec fn encode_models(ts: Seq<TlvModel>) -> Seq<u8>
    decreases ts.len(),
{
    if ts.len() == 0 {
        Seq::empty()
    } else {
        encode_model(ts[0]) + encode_models(ts.subrange(1, ts.len() as int))
    }
}

/// Reads a tag: its value and the number of bytes it takes.
pub open spec fn spec_parse_tag(s: Seq<u8>) -> Option<(u16, nat)> {
    if s.len() == 0 {
        None
    } else if s[0] % 32 != 31 {
        Some((s[0] as u16, 1))
    } else if s.len() >= 2 && s[1] < 128 {
        Some(((s[0] as int * 256 + s[1] as int) as u16, 2))
    } else {
        None
    }
}

/// Reads a length field: the length and the number of bytes the field takes.
/// The indefinite form 0x80 and the forms from 0x85 on are not supported.
pub open spec fn spec_parse_length(s: Seq<u8>) -> Option<(nat, nat)> {
    if s.len() == 0 {
        None
    } else if s[0] < 0x80 {
        Some((s[0] as nat, 1))
    } else if s[0] == 0x81 && s.len() >= 2 {
        Some((s[1] as nat, 2))
    } else if s[0] == 0x82 && s.len() >= 3 {
        Some(((s[1] as nat) * 0x100 + s[2] as nat, 3))
    } else if s[0] == 0x83 && s.len() >= 4 {
        Some(((s[1] as nat) * 0x1_0000 + (s[2] as nat) * 0x100 + s[3] as nat, 4))
    } else if s[0] == 0x84 && s.len() >= 5 {
        Some(
            (
                (s[1] as nat) * 0x100_0000 + (s[2] as nat) * 0x1_0000 + (s[3] as nat) * 0x100
                    + s[4] as nat,
                5,
            ),
        )
    } else {
        None
    }
}

/// Reads one TLV from the start of `s`: the TLV and the number of bytes it
/// takes. Fails when the tag or length is malformed or the value is cut short.
pub open spec fn spec_parse_tlv(s: Seq<u8>) -> Option<(TlvModel, nat)> {
    match spec_parse_tag(s) {
        None => None,
        Some((tag, tn)) => match spec_parse_length(s.subrange(tn as int, s.len() as int)) {
            None => None,
            Some((vlen, ln)) => {
                let total = tn + ln + vlen;
                if total <= s.len() {
                    Some(
                        (
                            TlvModel { tag, value: s.subrange((tn + ln) as int, total as int) },
                            total,
                        ),
                    )
                } else {
                    None
                }
            },
        },
    }
}

/// Reads TLVs one after another from `s`, stopping at the end or at the first
/// one that does not parse.
pub open spec fn spec_parse_prefix(s: Seq<u8>) -> Seq<TlvModel>
    decreases s.len(),
{
    if s.len() == 0 {
        Seq::empty()
    } else {
        match spec_parse_tlv(s) {
            Some((t, n)) => if 0 < n && n <= s.len() {
                seq![t] + spec_parse_prefix(s.subrange(n as int, s.len() as int))
            } else {
                Seq::empty()
            },
            None => Seq::empty(),
        }
    }
}

proof fn lemma_parse_tlv_size(s: Seq<u8>)
    ensures
        spec_parse_tlv(s) matches Some((t, n)) ==> 2 <= n <= s.len(),
{
}

proof fn lemma_length_round_trip(n: nat, rest: Seq<u8>)
    requires
        n <= 0xFFFF_FFFF,
    ensures
        spec_parse_length(length_bytes(n) + rest) == Some((n, length_bytes(n).len())),
{
    let s = length_bytes(n) + rest;
    if n < 0x80 {
        assert(s[0] == n as u8);
    } else if n < 0x100 {
        assert(s[0] == 0x81u8 && s[1] == n as u8);
    } else if n < 0x1_0000 {
        assert(s[0] == 0x82u8);
        assert(s[1] == (n / 0x100) as u8 && s[2] == (n % 0x100) as u8);
    } else if n < 0x100_0000 {
        assert(s[0] == 0x83u8);
        assert(s[1] == (n / 0x1_0000) as u8);
        assert(s[2] == ((n / 0x100) % 0x100) as u8);
        assert(s[3] == (n % 0x100) as u8);
    } else {
        assert(s[0] == 0x84u8);
        assert(s[1] == (n / 0x100_0000) as u8);
        assert(s[2] == ((n / 0x1_0000) % 0x100) as u8);
        assert(s[3] == ((n / 0x100) % 0x100) as u8);
        assert(s[4] == (n % 0x100) as u8);
    }
}

proof fn lemma_tag_round_trip(tag: u16, rest: Seq<u8>)
    requires
        tag_valid(tag),
    ensures
        spec_parse_tag(tag_bytes(tag) + rest) == Some((tag, tag_bytes(tag).len())),
{
    let s = tag_bytes(tag) + rest;
    if tag < 256 {
        assert(s[0] == tag as u8);
    } else {
        assert(s[0] == (tag / 256) as u8 && s[1] == (tag % 256) as u8);
    }
}

/// Reading the encoding of a well-formed TLV gives the TLV back, whatever
/// follows it.
pub proof fn lemma_parse_encode_one(t: TlvModel, rest: Seq<u8>)
    requires
        model_wf(t),
    ensures
        spec_parse_tlv(encode_model(t) + rest) == Some((t, encode_model(t).len())),
{
    let s = encode_model(t) + rest;
    let tb = tag_bytes(t.tag);
    let lb = length_bytes(t.value.len());
    let tn = tb.len();
    let ln = lb.len();
    assert(s =~= tb + (lb + t.value + rest));
    lemma_tag_round_trip(t.tag, lb + t.value + rest);
    assert(s.subrange(tn as int, s.len() as int) =~= lb + (t.value + rest));
    lemma_length_round_trip(t.value.len(), t.value + rest);
    assert(s.subrange((tn + ln) as int, (tn + ln + t.value.len()) as int) =~= t.value);
}

/// The BER-TLV round trip. Reading the encoding of well-formed TLVs gives
/// them back, and encoding what was read gives the same bytes again: for
/// every byte string `b` that encodes TLVs with shortest length fields,
/// `encode(parse(b)) == b`.
pub proof fn lemma_tlv_round_trip(ts: Seq<TlvModel>)
    requires
        forall|i: int| 0 <= i < ts.len() ==> model_wf(#[trigger] ts[i]),
    ensures
        spec_parse_prefix(encode_models(ts)) == ts,
        encode_models(spec_parse_prefix(encode_models(ts))) == encode_models(ts),
    decreases ts.len(),
{
    if ts.len() > 0 {
        let tail = ts.subrange(1, ts.len() as int);
        let s = encode_models(ts);
        let e = encode_model(ts[0]);
        lemma_parse_encode_one(ts[0], encode_models(tail));
        assert(s.subrange(e.len() as int, s.len() as int) =~= encode_models(tail));
        lemma_tlv_round_trip(tail);
        assert(seq![ts[0]] + tail =~= ts);
    }
}


/// Copies `data[from..to]` into a new vector.
pub fn copy_range(data: &[u8], from: usize, to: usize) -> (r: Vec<u8>)
    requires
        from <= to <= data@.len(),
    ensures
        r@ == data@.subrange(from as int, to as int),
{
    let mut r: Vec<u8> = Vec::new();
    let mut i: usize = from;
    while i < to
        invariant
            from <= i <= to <= data@.len(),
            r@ == data@.subrange(from as int, i as int),
        decreases to - i,
    {
        r.push(data[i]);
        i = i + 1;
    }
    r
}

/// Whether two byte strings are equal.
pub fn bytes_equal(a: &[u8], b: &[u8]) -> (r: bool)
    ensures
        r == (a@ == b@),
{
    if a.len() != b.len() {
        return false;
    }
    let mut i: usize = 0;
    while i < a.len()
        invariant
            i <= a@.len(),
            a@.len() == b@.len(),
            forall|k: int| 0 <= k < i ==> a@[k] == b@[k],
        decreases a.len() - i,
    {
        if a[i] != b[i] {
            return false;
        }
        i = i + 1;
    }
    assert(a@ =~= b@);
    true
}

/// Appends all of `src` to `dst`.
pub fn append_bytes(dst: &mut Vec<u8>, src: &[u8])
    ensures
        final(dst)@ == old(dst)@ + src@,
{
    let mut i: usize = 0;
    while i < src.len()
        invariant
            i <= src@.len(),
            dst@ == old(dst)@ + src@.subrange(0, i as int),
        decreases src.len() - i,
    {
        dst.push(src[i]);
        i = i + 1;
    }
    assert(src@.subrange(0, src@.len() as int) =~= src@);
}

/// Reads the tag that starts at `pos` in `data`: the tag and the position
/// just past it.
fn parse_tag_at(data: &[u8], pos: usize) -> (r: Option<(u16, usize)>)
    requires
        pos <= data@.len(),
    ensures
        match spec_parse_tag(data@.subrange(pos as int, data@.len() as int)) {
            Some((tag, n)) => r == Some((tag, (pos + n) as usize)),
            None => r is None,
        },
{
    let ghost s = data@.subrange(pos as int, data@.len() as int);
    let len = data.len();
    if pos >= len {
        return None;
    }
    let b0 = data[pos];
    if b0 % 32 != 31 {
        return Some((b0 as u16, pos + 1));
    }
    if pos + 1 >= len {
        return None;
    }
    let b1 = data[pos + 1];
    if b1 >= 128 {
        return None;
    }
    assert(s[1] == b1);
    Some(((b0 as u16) * 256 + (b1 as u16), pos + 2))
}

/// Reads the length field that starts at `p` in `data`: the length and the
/// position just past the field.
pub fn parse_length_at(data: &[u8], p: usize) -> (r: Option<(u64, usize)>)
    requires
        p <= data@.len(),
    ensures
        match spec_parse_length(data@.subrange(p as int, data@.len() as int)) {
            Some((vlen, n)) => r == Some((vlen as u64, (p + n) as usize)) && vlen
                <= 0xFFFF_FFFF,
            None => r is None,
        },
{
    let ghost s = data@.subrange(p as int, data@.len() as int);
    let len = data.len();
    if p >= len {
        return None;
    }
    let lb = data[p];
    if lb < 0x80 {
        Some((lb as u64, p + 1))
    } else if lb == 0x81 && len - p >= 2 {
        assert(s[1] == data@[p + 1]);
        Some((data[p + 1] as u64, p + 2))
    } else if lb == 0x82 && len - p >= 3 {
        assert(s[1] == data@[p + 1] && s[2] == data@[p + 2]);
        Some(((data[p + 1] as u64) * 0x100 + data[p + 2] as u64, p + 3))
    } else if lb == 0x83 && len - p >= 4 {
        assert(s[1] == data@[p + 1] && s[2] == data@[p + 2] && s[3] == data@[p + 3]);
        Some(
            (
                (data[p + 1] as u64) * 0x1_0000 + (data[p + 2] as u64) * 0x100
                    + data[p + 3] as u64,
                p + 4,
            ),
        )
    } else if lb == 0x84 && len - p >= 5 {
        assert(s[1] == data@[p + 1] && s[2] == data@[p + 2] && s[3] == data@[p + 3] && s[4]
            == data@[p + 4]);
        Some(
            (
                (data[p + 1] as u64) * 0x100_0000 + (data[p + 2] as u64) * 0x1_0000
                    + (data[p + 3] as u64) * 0x100 + data[p + 4] as u64,
                p + 5,
            ),
        )
    } else {
        None
    }
}

/// Reads one TLV that starts at `pos` in `data`. Returns it with the position
/// just past it.
pub fn parse_tlv_at(data: &[u8], pos: usize) -> (r: Option<(Tlv, usize)>)
    requires
        pos <= data@.len(),
    ensures
        match spec_parse_tlv(data@.subrange(pos as int, data@.len() as int)) {
            Some((m, n)) => r is Some && r.unwrap().0@ == m && r.unwrap().1 == pos + n,
            None => r is None,
        },
{
    let ghost s = data@.subrange(pos as int, data@.len() as int);
    let len = data.len();
    let (tag, p) = match parse_tag_at(data, pos) {
        Some(x) => x,
        None => return None,
    };
    let ghost ls = s.subrange((p - pos) as int, s.len() as int);
    assert(ls =~= data@.subrange(p as int, len as int));
    let (vlen, q) = match parse_length_at(data, p) {
        Some(x) => x,
        None => return None,
    };
    if vlen > (len - q) as u64 {
        return None;
    }
    let end = q + vlen as usize;
    let value = copy_range(data, q, end);
    assert(value@ =~= s.subrange((q - pos) as int, (end - pos) as int));
    Some((Tlv { tag, value }, end))
}

impl Tlv {
    /// Reads one TLV from the start of `data`. Returns it with the number of
    /// bytes it takes; the rest of `data` is left for the caller.
    pub fn parse(data: &[u8]) -> (r: Option<(Tlv, usize)>)
        ensures
            match spec_parse_tlv(data@) {
                Some((m, n)) => r is Some && r.unwrap().0@ == m && r.unwrap().1 == n,
                None => r is None,
            },
    {
        assert(data@.subrange(0, data@.len() as int) =~= data@);
        parse_tlv_at(data, 0)
    }

    /// Reads TLVs one after another, stopping at the end of `data` or at the
    /// first one that does not parse.
    pub fn parse_all(data: &[u8]) -> (r: Vec<Tlv>)
        ensures
            models(r@) == spec_parse_prefix(data@),
    {
        let mut out: Vec<Tlv> = Vec::new();
        let mut pos: usize = 0;
        let mut done = false;
        assert(data@.subrange(0, data@.len() as int) =~= data@);
        while pos < data.len() && !done
            invariant
                pos <= data@.len(),
                models(out@) + spec_parse_prefix(data@.subrange(pos as int, data@.len() as int))
                    == spec_parse_prefix(data@),
                done ==> spec_parse_prefix(data@.subrange(pos as int, data@.len() as int))
                    =~= Seq::<TlvModel>::empty(),
            decreases data@.len() - pos + (if done { 0int } else { 1int }),
        {
            let ghost s = data@.subrange(pos as int, data@.len() as int);
            proof {
                lemma_parse_tlv_size(s);
            }
            match parse_tlv_at(data, pos) {
                Some((t, end)) => {
                    let ghost n = (end - pos) as nat;
                    assert(s.subrange(n as int, s.len() as int) =~= data@.subrange(
                        end as int,
                        data@.len() as int,
                    ));
                    let ghost before = out@;
                    out.push(t);
                    assert(models(out@) =~= models(before) + seq![t@]);
                    pos = end;
                },
                None => {
                    done = true;
                },
            }
        }
        assert(models(out@) + Seq::<TlvModel>::empty() =~= models(out@));
        out
    }

    /// The BER encoding of this TLV.
    pub fn to_vec(&self) -> (r: Vec<u8>)
        requires
            model_wf(self@),
        ensures
            r@ == encode_model(self@),
    {
        let mut out: Vec<u8> = Vec::new();
        let tag = self.tag;
        if tag < 256 {
            out.push(tag as u8);
        } else {
            out.push((tag / 256) as u8);
            out.push((tag % 256) as u8);
        }
        assert(out@ =~= tag_bytes(tag));
        let n = self.value.len();
        let ghost before = out@;
        if n < 0x80 {
            out.push(n as u8);
        } else if n < 0x100 {
            out.push(0x81);
            out.push(n as u8);
        } else if n < 0x1_0000 {
            out.push(0x82);
            out.push((n / 0x100) as u8);
            out.push((n % 0x100) as u8);
        } else if n < 0x100_0000 {
            out.push(0x83);
            out.push((n / 0x1_0000) as u8);
            out.push(((n / 0x100) % 0x100) as u8);
            out.push((n % 0x100) as u8);
        } else {
            out.push(0x84);
            out.push((n / 0x100_0000) as u8);
            out.push(((n / 0x1_0000) % 0x100) as u8);
            out.push(((n / 0x100) % 0x100) as u8);
            out.push((n % 0x100) as u8);
        }
        assert(out@ =~= before + length_bytes(n as nat));
        append_bytes(&mut out, self.value.as_slice());
        out
    }

}

/// The value of a primitive TLV. A constructed TLV with exactly one child
/// gives the encoding of that child; any other constructed TLV gives none.
pub fn get_tlv_value_bytes(input_tlv: &Tlv) -> (r: Option<Vec<u8>>)
    ensures
        match spec_value_bytes(input_tlv@) {
            Some(v) => r is Some && r->0@ == v,
            None => r is None,
        },
{
    if !tag_constructed(input_tlv.tag) {
        return Some(input_tlv.value.clone());
    }
    let children = Tlv::parse_all(input_tlv.value.as_slice());
    if children.len() != 1 {
        return None;
    }
    assert(models(children@)[0] == children@[0]@);
    proof {
        lemma_parsed_models_wf(input_tlv.value@);
    }
    Some(children[0].to_vec())
}

/// The children of a constructed TLV, or none for a primitive one.
pub fn get_tlv_constructed_value(input_tlv: &Tlv) -> (r: Option<Vec<Tlv>>)
    ensures
        tag_is_constructed(input_tlv.tag) <==> r is Some,
        r matches Some(c) ==> models(c@) == spec_parse_prefix(input_tlv.value@),
{
    if tag_constructed(input_tlv.tag) {
        Some(Tlv::parse_all(input_tlv.value.as_slice()))
    } else {
        None
    }
}

/// The tag of a TLV as a 16-bit number.
pub fn get_tlv_tag(input_tlv: &Tlv) -> (r: u16)
    ensures
        r == input_tlv.tag,
{
    input_tlv.tag
}

/// Whether a tag marks a constructed TLV.
pub fn tag_constructed(tag: u16) -> (r: bool)
    ensures
        r == tag_is_constructed(tag),
{
    let first: u16 = if tag < 256 { tag } else { tag / 256 };
    (first / 32) % 2 == 1
}

/// What `Tlv::value_bytes` gives for a TLV.
pub open spec fn spec_value_bytes(t: TlvModel) -> Option<Seq<u8>> {
    if !tag_is_constructed(t.tag) {
        Some(t.value)
    } else if spec_parse_prefix(t.value).len() == 1 {
        Some(encode_model(spec_parse_prefix(t.value)[0]))
    } else {
        None
    }
}

proof fn lemma_parsed_tag_valid(s: Seq<u8>)
    ensures
        spec_parse_tlv(s) matches Some((t, n)) ==> model_wf(t),
{
    if let Some((t, n)) = spec_parse_tlv(s) {
        if s[0] % 32 == 31 {
            assert(t.tag == (s[0] as int * 256 + s[1] as int) as u16);
            assert(t.tag / 256 == s[0] as int);
            assert(t.tag % 256 == s[1] as int);
        }
    }
}

/// Every TLV that parsing yields is one that the encoder can write.
pub proof fn lemma_parsed_models_wf(s: Seq<u8>)
    ensures
        forall|i: int|
            0 <= i < spec_parse_prefix(s).len() ==> model_wf(#[trigger] spec_parse_prefix(s)[i]),
    decreases s.len(),
{
    if s.len() > 0 {
        lemma_parsed_tag_valid(s);
        if let Some((t, n)) = spec_parse_tlv(s) {
            if 0 < n && n <= s.len() {
                let rest = s.subrange(n as int, s.len() as int);
                lemma_parsed_models_wf(rest);
                assert forall|i: int| 0 <= i < spec_parse_prefix(s).len() implies model_wf(
                    #[trigger] spec_parse_prefix(s)[i],
                ) by {
                    if i > 0 {
                        assert(spec_parse_prefix(s)[i] == spec_parse_prefix(rest)[i - 1]);
                    }
                }
            }
        }
    }
}


/// Every TLV that an index of well-formed TLVs holds is well formed.
pub proof fn lemma_tag_map_wf(s: Seq<TlvModel>)
    requires
        forall|i: int| 0 <= i < s.len() ==> model_wf(#[trigger] s[i]),
    ensures
        forall|k: u16| #[trigger] tag_map(s).contains_key(k) ==> model_wf(tag_map(s)[k]),
    decreases s.len(),
{
    if s.len() > 0 {
        let p = s.drop_last();
        assert forall|i: int| 0 <= i < p.len() implies model_wf(#[trigger] p[i]) by {
            assert(p[i] == s[i]);
        }
        lemma_tag_map_wf(p);
        assert(model_wf(s[s.len() - 1]));
        assert forall|k: u16| #[trigger] tag_map(s).contains_key(k) implies model_wf(tag_map(s)[k]) by {
            if k != s.last().tag {
                assert(tag_map(s)[k] == tag_map(p)[k]);
            }
        }
    }
}

/// No TLV that parsing yields holds a value longer than the input.
pub proof fn lemma_parsed_values_bounded(s: Seq<u8>)
    ensures
        forall|i: int|
            0 <= i < spec_parse_prefix(s).len() ==> (#[trigger] spec_parse_prefix(s)[i]).value.len()
                <= s.len(),
    decreases s.len(),
{
    if s.len() > 0 {
        if let Some((t, n)) = spec_parse_tlv(s) {
            if 0 < n && n <= s.len() {
                let rest = s.subrange(n as int, s.len() as int);
                lemma_parsed_values_bounded(rest);
                assert forall|i: int| 0 <= i < spec_parse_prefix(s).len() implies (
                #[trigger] spec_parse_prefix(s)[i]).value.len() <= s.len() by {
                    if i > 0 {
                        assert(spec_parse_prefix(s)[i] == spec_parse_prefix(rest)[i - 1]);
                    }
                }
            }
        }
    }
}

/// An index holds no value longer than the longest of the TLVs it indexes.
pub proof fn lemma_tag_map_bounded(s: Seq<TlvModel>, n: nat)
    requires
        forall|i: int| 0 <= i < s.len() ==> (#[trigger] s[i]).value.len() <= n,
    ensures
        forall|k: u16| #[trigger] tag_map(s).contains_key(k) ==> tag_map(s)[k].value.len() <= n,
    decreases s.len(),
{
    if s.len() > 0 {
        let p = s.drop_last();
        assert forall|i: int| 0 <= i < p.len() implies (#[trigger] p[i]).value.len() <= n by {
            assert(p[i] == s[i]);
        }
        lemma_tag_map_bounded(p, n);
        assert(s[s.len() - 1].value.len() <= n);
        assert forall|k: u16| #[trigger] tag_map(s).contains_key(k) implies tag_map(s)[k].value.len()
            <= n by {
            if k != s.last().tag {
                assert(tag_map(s)[k] == tag_map(p)[k]);
            }
        }
    }
}

/// Encodes TLVs one after another.
pub fn encode_all(tlvs: &Vec<Tlv>) -> (r: Vec<u8>)
    requires
        forall|i: int| 0 <= i < tlvs@.len() ==> model_wf(#[trigger] tlvs@[i]@),
    ensures
        r@ == encode_models(models(tlvs@)),
{
    let mut out: Vec<u8> = Vec::new();
    let mut i: usize = tlvs.len();
    let mut acc: Vec<u8> = Vec::new();
    // Build from the back so that each step matches the recursive definition.
    while i > 0
        invariant
            i <= tlvs@.len(),
            forall|k: int| 0 <= k < tlvs@.len() ==> model_wf(#[trigger] tlvs@[k]@),
            acc@ == encode_models(models(tlvs@).subrange(i as int, tlvs@.len() as int)),
        decreases i,
    {
        i = i - 1;
        let mut item = tlvs[i].to_vec();
        let ghost sub = models(tlvs@).subrange(i as int, tlvs@.len() as int);
        assert(sub[0] == tlvs@[i as int]@);
        assert(sub.subrange(1, sub.len() as int) =~= models(tlvs@).subrange(
            i + 1,
            tlvs@.len() as int,
        ));
        append_bytes(&mut item, acc.as_slice());
        acc = item;
    }
    assert(models(tlvs@).subrange(0, tlvs@.len() as int) =~= models(tlvs@));
    append_bytes(&mut out, acc.as_slice());
    out
}

/// The TLVs of `s` whose tag is `tag`, in order.
pub open spec fn filter_tag(s: Seq<TlvModel>, tag: u16) -> Seq<TlvModel>
    decreases s.len(),
{
    if s.len() == 0 {
        Seq::empty()
    } else if s.last().tag == tag {
        filter_tag(s.drop_last(), tag).push(s.last())
    } else {
        filter_tag(s.drop_last(), tag)
    }
}

/// Each tag of `s` mapped to the last TLV that carries it.
pub open spec fn tag_map(s: Seq<TlvModel>) -> Map<u16, TlvModel>
    decreases s.len(),
{
    if s.len() == 0 {
        Map::empty()
    } else {
        tag_map(s.drop_last()).insert(s.last().tag, s.last())
    }
}

/// The first TLV with the given tag.
pub fn get_tlv_by_tag(tlvs: &Vec<Tlv>, tag: u16) -> (r: Option<&Tlv>)
    ensures
        r is None <==> forall|i: int| 0 <= i < tlvs@.len() ==> #[trigger] tlvs@[i].tag != tag,
        r matches Some(t) ==> exists|i: int|
            0 <= i < tlvs@.len() && *t == tlvs@[i] && tlvs@[i].tag == tag && forall|j: int|
                0 <= j < i ==> #[trigger] tlvs@[j].tag != tag,
{
    let mut i: usize = 0;
    while i < tlvs.len()
        invariant
            i <= tlvs@.len(),
            forall|j: int| 0 <= j < i ==> #[trigger] tlvs@[j].tag != tag,
        decreases tlvs.len() - i,
    {
        if tlvs[i].tag == tag {
            return Some(&tlvs[i]);
        }
        i = i + 1;
    }
    None
}

/// Every TLV with the given tag, in order.
pub fn get_tlvs_by_tag(tlvs: &Vec<Tlv>, tag: u16) -> (r: Vec<Tlv>)
    ensures
        models(r@) == filter_tag(models(tlvs@), tag),
{
    let mut out: Vec<Tlv> = Vec::new();
    let mut i: usize = 0;
    while i < tlvs.len()
        invariant
            i <= tlvs@.len(),
            models(out@) == filter_tag(models(tlvs@).subrange(0, i as int), tag),
        decreases tlvs.len() - i,
    {
        let ghost pre = models(tlvs@).subrange(0, i as int);
        let ghost next = models(tlvs@).subrange(0, i + 1);
        assert(next.drop_last() =~= pre);
        assert(next.last() == tlvs@[i as int]@);
        if tlvs[i].tag == tag {
            let ghost before = out@;
            out.push(Tlv { tag: tlvs[i].tag, value: tlvs[i].value.clone() });
            assert(models(out@) =~= models(before).push(tlvs@[i as int]@));
        }
        i = i + 1;
    }
    assert(models(tlvs@).subrange(0, tlvs@.len() as int) =~= models(tlvs@));
    out
}

/// TLVs indexed by tag; where a tag occurs more than once, the last one wins.
pub struct TlvMap {
    pub items: Vec<Tlv>,
}

impl View for TlvMap {
    type V = Map<u16, TlvModel>;

    open spec fn view(&self) -> Map<u16, TlvModel> {
        tag_map(models(self.items@))
    }
}

/// Indexes TLVs by tag; where a tag occurs more than once, the last one wins.
pub fn sort_tlvs_by_tag(tlvs: Vec<Tlv>) -> (r: TlvMap)
    ensures
        r@ == tag_map(models(tlvs@)),
{
    TlvMap { items: tlvs }
}

impl TlvMap {
    /// The TLV indexed under `tag`.
    pub fn get(&self, tag: u16) -> (r: Option<&Tlv>)
        ensures
            r is Some <==> self@.contains_key(tag),
            r matches Some(t) ==> t@ == self@[tag],
    {
        let mut i: usize = self.items.len();
        assert(models(self.items@).subrange(0, i as int) =~= models(self.items@));
        while i > 0
            invariant
                i <= self.items@.len(),
                tag_map(models(self.items@)).contains_key(tag) <==> tag_map(
                    models(self.items@).subrange(0, i as int),
                ).contains_key(tag),
                tag_map(models(self.items@)).contains_key(tag) ==> tag_map(models(self.items@))[tag]
                    == tag_map(models(self.items@).subrange(0, i as int))[tag],
            decreases i,
        {
            let ghost pre = models(self.items@).subrange(0, i as int);
            assert(pre.drop_last() =~= models(self.items@).subrange(0, i - 1));
            assert(pre.last() == self.items@[i - 1]@);
            if self.items[i - 1].tag == tag {
                return Some(&self.items[i - 1]);
            }
            i = i - 1;
        }
        assert(models(self.items@).subrange(0, 0) =~= Seq::<TlvModel>::empty());
        None
    }

    pub fn contains_key(&self, tag: u16) -> (r: bool)
        ensures
            r == self@.contains_key(tag),
    {
        self.get(tag).is_some()
    }
}

} // verus!
