//! The cryptographic primitives of BAC and Secure Messaging: SHA-1, two-key
//! 3DES in CBC mode with a zero IV, the ISO 9797-1 Retail MAC (algorithm 3
//! with single DES), Padding Method 2 and the ICAO 9303 key derivation.

use vstd::prelude::*;

use crate::tlv::{append_bytes, copy_range};

verus! {

/// The SHA-1 digest of `data`.
pub uninterp spec fn sha1_of(data: Seq<u8>) -> Seq<u8>;

/// Single DES applied to one 8-byte block under an 8-byte key.
pub uninterp spec fn des_encrypt_of(key: Seq<u8>, block: Seq<u8>) -> Seq<u8>;

/// Single DES inverted on one 8-byte block under an 8-byte key.
pub uninterp spec fn des_decrypt_of(key: Seq<u8>, block: Seq<u8>) -> Seq<u8>;

/// Two-key 3DES (EDE) in CBC mode with a zero IV, without padding.
pub uninterp spec fn tdes_cbc_encrypt_of(key: Seq<u8>, data: Seq<u8>) -> Seq<u8>;

/// Two-key 3DES (EDE) CBC decryption with a zero IV, without padding.
pub uninterp spec fn tdes_cbc_decrypt_of(key: Seq<u8>, data: Seq<u8>) -> Seq<u8>;

/// Relies on `sha1::Sha1` through `digest::Digest::digest`: the SHA-1 digest
/// of the input, which is 20 bytes long.
#[verifier::external_body]
pub(crate) fn sha1_digest(data: &[u8]) -> (r: Vec<u8>)
    ensures
        r@ == sha1_of(data@),
        r@.len() == 20,
{
    <sha1::Sha1 as sha1::Digest>::digest(data).to_vec()
}

/// Relies on `des::Des` (`KeyInit::new_from_slice`, `BlockEncrypt::encrypt_block`):
/// one block encrypted with single DES. The key is 8 bytes, so the key setup
/// does not fail.
#[verifier::external_body]
fn des_encrypt_block(key: &[u8], block: &[u8]) -> (r: Vec<u8>)
    requires
        key@.len() == 8,
        block@.len() == 8,
    ensures
        r@ == des_encrypt_of(key@, block@),
        r@.len() == 8,
{
    let cipher = <des::Des as des::cipher::KeyInit>::new_from_slice(key).unwrap();
    let mut b = des::cipher::generic_array::GenericArray::clone_from_slice(block);
    des::cipher::BlockEncrypt::encrypt_block(&cipher, &mut b);
    b.to_vec()
}

/// Relies on `des::Des` (`KeyInit::new_from_slice`, `BlockDecrypt::decrypt_block`):
/// one block decrypted with single DES. The key is 8 bytes, so the key setup
/// does not fail.
#[verifier::external_body]
fn des_decrypt_block(key: &[u8], block: &[u8]) -> (r: Vec<u8>)
    requires
        key@.len() == 8,
        block@.len() == 8,
    ensures
        r@ == des_decrypt_of(key@, block@),
        r@.len() == 8,
{
    let cipher = <des::Des as des::cipher::KeyInit>::new_from_slice(key).unwrap();
    let mut b = des::cipher::generic_array::GenericArray::clone_from_slice(block);
    des::cipher::BlockDecrypt::decrypt_block(&cipher, &mut b);
    b.to_vec()
}

/// Encrypts pre-padded data with two-key 3DES in CBC mode and a zero IV.
///
/// Relies on `cbc::Encryptor<des::TdesEde2>` (`KeyIvInit::new_from_slices`,
/// `BlockEncryptMut::encrypt_padded_mut` with `NoPadding`): with a 16-byte key
/// and data whose length is a multiple of 8 neither step fails, the
/// ciphertext is as long as the data, and CBC decryption under the same key
/// and IV gives the data back.
#[verifier::external_body]
pub fn tdes_enc(key: &[u8], data: &[u8]) -> (r: Vec<u8>)
    requires
        key@.len() == 16,
        data@.len() % 8 == 0,
    ensures
        r@ == tdes_cbc_encrypt_of(key@, data@),
        r@.len() == data@.len(),
        tdes_cbc_decrypt_of(key@, r@) == data@,
{
    let mut buf = data.to_vec();
    let n = buf.len();
    let enc = <cbc::Encryptor<des::TdesEde2> as cbc::cipher::KeyIvInit>::new_from_slices(
        key,
        &[0u8; 8],
    ).unwrap();
    cbc::cipher::BlockEncryptMut::encrypt_padded_mut::<cbc::cipher::block_padding::NoPadding>(
        enc,
        &mut buf,
        n,
    ).unwrap();
    buf
}

/// Decrypts data with two-key 3DES in CBC mode and a zero IV.
///
/// Relies on `cbc::Decryptor<des::TdesEde2>` (`KeyIvInit::new_from_slices`,
/// `BlockDecryptMut::decrypt_padded_mut` with `NoPadding`): with a 16-byte key
/// and data whose length is a multiple of 8 neither step fails, and the
/// plaintext is as long as the data.
#[verifier::external_body]
pub fn tdes_dec(key: &[u8], data: &[u8]) -> (r: Vec<u8>)
    requires
        key@.len() == 16,
        data@.len() % 8 == 0,
    ensures
        r@ == tdes_cbc_decrypt_of(key@, data@),
        r@.len() == data@.len(),
{
    let mut buf = data.to_vec();
    let dec = <cbc::Decryptor<des::TdesEde2> as cbc::cipher::KeyIvInit>::new_from_slices(
        key,
        &[0u8; 8],
    ).unwrap();
    cbc::cipher::BlockDecryptMut::decrypt_padded_mut::<cbc::cipher::block_padding::NoPadding>(
        dec,
        &mut buf,
    ).unwrap();
    buf
}

/// `n` zero bytes.
pub open spec fn zeros(n: nat) -> Seq<u8> {
    Seq::new(n, |i: int| 0u8)
}

/// ISO 9797-1 Padding Method 2 on 8-byte blocks: `0x80`, then zeros up to the
/// next multiple of 8. At least one byte is always added, so aligned data
/// gains a whole block.
pub open spec fn pad2(s: Seq<u8>) -> Seq<u8> {
    s + seq![0x80u8] + zeros((7 - s.len() % 8) as nat)
}

/// Undoes Padding Method 2: strips trailing zeros, then the one `0x80` before
/// them. Fails when no `0x80` is found there.
pub open spec fn unpad2(s: Seq<u8>) -> Option<Seq<u8>>
    decreases s.len(),
{
    if s.len() == 0 {
        None
    } else if s.last() == 0u8 {
        unpad2(s.drop_last())
    } else if s.last() == 0x80u8 {
        Some(s.drop_last())
    } else {
        None
    }
}

proof fn lemma_unpad_zeros(s: Seq<u8>, k: nat)
    ensures
        unpad2(s + seq![0x80u8] + zeros(k)) == Some(s),
    decreases k,
{
    let t = s + seq![0x80u8] + zeros(k);
    if k == 0 {
        assert(t =~= s.push(0x80u8));
        assert(t.drop_last() =~= s);
    } else {
        assert(t.drop_last() =~= s + seq![0x80u8] + zeros((k - 1) as nat));
        lemma_unpad_zeros(s, (k - 1) as nat);
    }
}

/// Padding Method 2 is undone by unpadding, for every input; the padded
/// length is the next multiple of 8 above the input's, so an 8-byte-aligned
/// input gains a whole block of 8.
pub proof fn lemma_pad2_round_trip(p: Seq<u8>)
    ensures
        unpad2(pad2(p)) == Some(p),
        pad2(p).len() == p.len() + 8 - p.len() % 8,
        pad2(p).len() % 8 == 0,
        p.len() % 8 == 0 ==> pad2(p).len() == p.len() + 8,
{
    lemma_unpad_zeros(p, (7 - p.len() % 8) as nat);
}

/// Applies Padding Method 2 of ISO 9797-1 with 8-byte blocks.
pub fn padding_method_2_pad(input: &[u8]) -> (r: Vec<u8>)
    requires
        input@.len() + 8 <= usize::MAX,
    ensures
        r@ == pad2(input@),
        r@.len() == input@.len() + 8 - input@.len() % 8,
{
    let mut out: Vec<u8> = Vec::new();
    append_bytes(&mut out, input);
    out.push(0x80);
    let k: usize = 7 - input.len() % 8;
    let mut j: usize = 0;
    while j < k
        invariant
            j <= k,
            k == 7 - input@.len() % 8,
            out@ == input@ + seq![0x80u8] + zeros(j as nat),
        decreases k - j,
    {
        out.push(0);
        j = j + 1;
        assert(out@ =~= input@ + seq![0x80u8] + zeros(j as nat));
    }
    proof {
        lemma_pad2_round_trip(input@);
    }
    out
}

/// Undoes Padding Method 2: strips trailing zeros and the `0x80` before them,
/// or gives none when the padding is malformed.
pub fn padding_method_2_unpad(input: &[u8]) -> (r: Option<Vec<u8>>)
    ensures
        match unpad2(input@) {
            Some(p) => r is Some && r.unwrap()@ == p,
            None => r is None,
        },
{
    let mut i: usize = input.len();
    assert(input@.subrange(0, i as int) =~= input@);
    while i > 0 && input[i - 1] == 0
        invariant
            i <= input@.len(),
            unpad2(input@) == unpad2(input@.subrange(0, i as int)),
        decreases i,
    {
        assert(input@.subrange(0, i as int).drop_last() =~= input@.subrange(0, i - 1));
        i = i - 1;
    }
    if i == 0 || input[i - 1] != 0x80 {
        return None;
    }
    assert(input@.subrange(0, i as int).drop_last() =~= input@.subrange(0, i - 1));
    Some(copy_range(input, 0, i - 1))
}

/// Big-endian bytes of a 32-bit counter.
pub open spec fn be32(c: u32) -> Seq<u8> {
    seq![
        (c / 0x100_0000) as u8,
        ((c / 0x1_0000) % 0x100) as u8,
        ((c / 0x100) % 0x100) as u8,
        (c % 0x100) as u8,
    ]
}

/// The ICAO 9303 key derivation with SHA-1: the first 16 bytes of
/// `SHA1(secret || counter_be32)`.
pub open spec fn kdf_of(secret: Seq<u8>, counter: u32) -> Seq<u8> {
    sha1_of(secret + be32(counter)).subrange(0, 16)
}

/// Derives a 16-byte key from a shared secret and a counter (ICAO 9303 part
/// 11, SHA-1). Parity bits are left as they come.
pub fn kdf_sha1(shared_secret: &[u8], counter: u32) -> (r: Vec<u8>)
    requires
        shared_secret@.len() + 4 <= usize::MAX,
    ensures
        r@ == kdf_of(shared_secret@, counter),
        r@.len() == 16,
{
    let mut base: Vec<u8> = Vec::new();
    append_bytes(&mut base, shared_secret);
    base.push((counter / 0x100_0000) as u8);
    base.push(((counter / 0x1_0000) % 0x100) as u8);
    base.push(((counter / 0x100) % 0x100) as u8);
    base.push((counter % 0x100) as u8);
    assert(base@ =~= shared_secret@ + be32(counter));
    let digest = sha1_digest(base.as_slice());
    copy_range(digest.as_slice(), 0, 16)
}

/// Bytewise XOR of two 8-byte blocks.
pub open spec fn xor8(a: Seq<u8>, b: Seq<u8>) -> Seq<u8> {
    Seq::new(8, |i: int| a[i] ^ b[i])
}

/// The CBC-MAC chain value after the first `n` blocks of `data` under `k1`.
pub open spec fn cbc_mac_chain(k1: Seq<u8>, data: Seq<u8>, n: nat) -> Seq<u8>
    decreases n,
{
    if n == 0 {
        zeros(8)
    } else {
        des_encrypt_of(
            k1,
            xor8(
                cbc_mac_chain(k1, data, (n - 1) as nat),
                data.subrange(8 * (n - 1), 8 * n as int),
            ),
        )
    }
}

/// ISO 9797-1 MAC algorithm 3 with single DES: CBC-MAC under the first key
/// half, then the last chain value decrypted under the second half and
/// encrypted again under the first.
pub open spec fn retail_mac_of(key: Seq<u8>, data: Seq<u8>) -> Seq<u8> {
    des_encrypt_of(
        key.subrange(0, 8),
        des_decrypt_of(key.subrange(8, 16), cbc_mac_chain(key.subrange(0, 8), data, data.len() / 8)),
    )
}

fn xor_block(a: &[u8], b: &[u8]) -> (r: Vec<u8>)
    requires
        a@.len() == 8,
        b@.len() == 8,
    ensures
        r@ == xor8(a@, b@),
{
    let mut out: Vec<u8> = Vec::new();
    let mut i: usize = 0;
    while i < 8
        invariant
            i <= 8,
            a@.len() == 8,
            b@.len() == 8,
            out@ =~= Seq::new(i as nat, |j: int| a@[j] ^ b@[j]),
        decreases 8 - i,
    {
        out.push(a[i] ^ b[i]);
        i = i + 1;
    }
    out
}

/// The ISO 9797-1 Retail MAC (algorithm 3, single DES) of already padded
/// data under a 16-byte key. The result is 8 bytes.
pub fn retail_mac(k_mac: &[u8], input_data: &[u8]) -> (r: Vec<u8>)
    requires
        k_mac@.len() == 16,
        input_data@.len() % 8 == 0,
    ensures
        r@ == retail_mac_of(k_mac@, input_data@),
        r@.len() == 8,
{
    let k1 = copy_range(k_mac, 0, 8);
    let k2 = copy_range(k_mac, 8, 16);
    let mut h: Vec<u8> = Vec::new();
    let mut z: usize = 0;
    while z < 8
        invariant
            z <= 8,
            h@ =~= zeros(z as nat),
        decreases 8 - z,
    {
        h.push(0);
        z = z + 1;
    }
    let len = input_data.len();
    let mut pos: usize = 0;
    while len - pos >= 8
        invariant
            pos <= len,
            len == input_data@.len(),
            len % 8 == 0,
            pos % 8 == 0,
            h@ == cbc_mac_chain(k1@, input_data@, (pos / 8) as nat),
            h@.len() == 8,
            k1@.len() == 8,
        decreases len - pos,
    {
        let block = copy_range(input_data, pos, pos + 8);
        let x = xor_block(h.as_slice(), block.as_slice());
        h = des_encrypt_block(k1.as_slice(), x.as_slice());
        pos = pos + 8;
    }
    let d = des_decrypt_block(k2.as_slice(), h.as_slice());
    des_encrypt_block(k1.as_slice(), d.as_slice())
}

} // verus!
