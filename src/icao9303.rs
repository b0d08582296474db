//! ICAO 9303 rules: MRZ check digits and the computations of Basic Access
//! Control (key seed, E.IFD and M.IFD, session keys, send sequence counter).

use vstd::prelude::*;
use vstd::string::*;
use vstd::utf8::encode_utf8;

use crate::crypto::{
    kdf_of, kdf_sha1, pad2, padding_method_2_pad, retail_mac, retail_mac_of, sha1_digest, sha1_of,
    tdes_cbc_decrypt_of, tdes_cbc_encrypt_of, tdes_dec, tdes_enc,
};
use crate::iso7816::{apdu_external_authentication, apdu_get_challenge, ExchangeError};
use crate::smartcard::Smartcard;
use crate::tlv::{append_bytes, bytes_equal, copy_range};

verus! {

/// The application identifier of the eMRTD LDS1 applet.
pub const AID_MRTD_LDS1: [u8; 7] = [0xA0, 0x00, 0x00, 0x02, 0x47, 0x10, 0x01];

/// The value of an MRZ character: `A..Z` are 10..35, `0..9` are 0..9, and
/// the filler `<` and anything else are 0.
pub open spec fn mrz_char_value(c: char) -> nat {
    if 'A' <= c && c <= 'Z' {
        (c as nat - 55) as nat
    } else if '0' <= c && c <= '9' {
        (c as nat - 48) as nat
    } else {
        0
    }
}

/// The weight of position `i`: 7, 3, 1, repeating.
pub open spec fn mrz_weight(i: nat) -> nat {
    if i % 3 == 0 {
        7
    } else if i % 3 == 1 {
        3
    } else {
        1
    }
}

/// The weighted sum of the character values of `s`.
pub open spec fn mrz_weighted_sum(s: Seq<char>) -> nat
    decreases s.len(),
{
    if s.len() == 0 {
        0
    } else {
        mrz_weighted_sum(s.drop_last()) + mrz_char_value(s.last()) * mrz_weight(
            (s.len() - 1) as nat,
        )
    }
}

/// The ASCII digit for `d` in 0..=9.
pub open spec fn digit_char(d: nat) -> char {
    ((d + 48) as u8) as char
}

/// The check digit of an MRZ field: its weighted sum modulo 10, as a digit.
pub open spec fn check_digit_of(s: Seq<char>) -> char {
    digit_char(mrz_weighted_sum(s) % 10)
}

/// A field followed by its check digit.
pub open spec fn with_check_digit(s: Seq<char>) -> Seq<char> {
    s.push(check_digit_of(s))
}

fn mrz_char_value_exec(c: char) -> (r: u8)
    ensures
        r as nat == mrz_char_value(c),
        r < 36,
{
    if 'A' <= c && c <= 'Z' {
        ((c as u32) - 55) as u8
    } else if '0' <= c && c <= '9' {
        ((c as u32) - 48) as u8
    } else {
        0
    }
}

/// Computes the check digit of an MRZ field (ICAO 9303 part 3), used for the
/// document number, the dates and the composite fields. The result depends
/// only on the characters and their positions.
pub fn calculate_check_digit(text: &String) -> (r: char)
    ensures
        r == check_digit_of(text@),
        '0' <= r && r <= '9',
{
    let s = text.as_str();
    let n = s.unicode_len();
    let mut cd: u8 = 0;
    let mut i: usize = 0;
    while i < n
        invariant
            i <= n,
            n == s@.len(),
            s@ == text@,
            cd as nat == mrz_weighted_sum(s@.subrange(0, i as int)) % 10,
        decreases n - i,
    {
        let c = s.get_char(i);
        let v = mrz_char_value_exec(c);
        let w: u8 = if i % 3 == 0 {
            7
        } else if i % 3 == 1 {
            3
        } else {
            1
        };
        let ghost prefix = s@.subrange(0, i as int);
        let ghost next = s@.subrange(0, i + 1);
        assert(next.drop_last() =~= prefix);
        assert(next.last() == c);
        assert(w as nat == mrz_weight(i as nat));
        proof {
            vstd::arithmetic::div_mod::lemma_add_mod_noop(
                mrz_weighted_sum(prefix) as int,
                (v as nat * w as nat) as int,
                10,
            );
            vstd::arithmetic::div_mod::lemma_mod_twice(
                (v as nat * w as nat) as int,
                10,
            );
            vstd::arithmetic::div_mod::lemma_add_mod_noop(
                cd as int,
                (v as nat * w as nat) as int,
                10,
            );
        }
        cd = (cd + v * w) % 10;
        i = i + 1;
    }
    assert(s@.subrange(0, n as int) =~= text@);
    ((cd + 48) as u8) as char
}

/// The one-character string for a decimal digit.
fn digit_str(c: char) -> (r: &'static str)
    requires
        '0' <= c && c <= '9',
    ensures
        r@ == seq![c],
{
    proof {
        reveal_strlit("0");
        reveal_strlit("1");
        reveal_strlit("2");
        reveal_strlit("3");
        reveal_strlit("4");
        reveal_strlit("5");
        reveal_strlit("6");
        reveal_strlit("7");
        reveal_strlit("8");
        reveal_strlit("9");
    }
    if c == '0' {
        "0"
    } else if c == '1' {
        "1"
    } else if c == '2' {
        "2"
    } else if c == '3' {
        "3"
    } else if c == '4' {
        "4"
    } else if c == '5' {
        "5"
    } else if c == '6' {
        "6"
    } else if c == '7' {
        "7"
    } else if c == '8' {
        "8"
    } else {
        "9"
    }
}

/// Appends its check digit to an MRZ field.
pub fn append_check_digit(text: &String) -> (r: String)
    ensures
        r@ == with_check_digit(text@),
{
    let cd = calculate_check_digit(text);
    let d = digit_str(cd);
    let r = text.clone().concat(d);
    assert(r@ =~= text@.push(cd));
    r
}

/// The MRZ information that BAC keys are derived from: document number, date
/// of birth and date of expiry, each followed by its check digit.
pub open spec fn mrz_information(doc: Seq<char>, dob: Seq<char>, doe: Seq<char>) -> Seq<char> {
    with_check_digit(doc) + with_check_digit(dob) + with_check_digit(doe)
}

/// `K_seed`: the first 16 bytes of the SHA-1 of the MRZ information.
pub open spec fn k_seed_of(doc: Seq<char>, dob: Seq<char>, doe: Seq<char>) -> Seq<u8> {
    sha1_of(encode_utf8(mrz_information(doc, dob, doe))).subrange(0, 16)
}

/// Computes `K_seed` from the document number, date of birth and date of
/// expiry (each without its check digit).
pub fn calculate_bac_k_seed(
    document_number: &String,
    date_of_birth: &String,
    date_of_expiry: &String,
) -> (r: Vec<u8>)
    ensures
        r@ == k_seed_of(document_number@, date_of_birth@, date_of_expiry@),
        r@.len() == 16,
{
    let k_mrz = append_check_digit(document_number).concat(
        append_check_digit(date_of_birth).as_str(),
    ).concat(append_check_digit(date_of_expiry).as_str());
    let digest = sha1_digest(k_mrz.as_str().as_bytes());
    copy_range(digest.as_slice(), 0, 16)
}

/// What `calculate_bac_eifd_and_mifd` computes: `K.enc`, `E.IFD` and `M.IFD`.
pub open spec fn bac_eifd_mifd_of(
    rnd_ic: Seq<u8>,
    rnd_ifd: Seq<u8>,
    k_ifd: Seq<u8>,
    k_seed: Seq<u8>,
) -> (Seq<u8>, Seq<u8>, Seq<u8>) {
    let k_enc = kdf_of(k_seed, 1);
    let k_mac = kdf_of(k_seed, 2);
    let e_ifd = tdes_cbc_encrypt_of(k_enc, rnd_ifd + rnd_ic + k_ifd);
    (k_enc, e_ifd, retail_mac_of(k_mac, pad2(e_ifd)))
}

/// Computes `K.enc`, `E.IFD = 3DES(K.enc, RND.IFD || RND.IC || K.IFD)` and
/// `M.IFD = MAC(K.mac, pad(E.IFD))` for BAC.
pub fn calculate_bac_eifd_and_mifd(
    rnd_ic: &[u8],
    rnd_ifd: &[u8],
    k_ifd: &[u8],
    document_number: &String,
    date_of_birth: &String,
    date_of_expiry: &String,
) -> (r: (Vec<u8>, Vec<u8>, Vec<u8>))
    requires
        rnd_ic@.len() == 8,
        rnd_ifd@.len() == 8,
        k_ifd@.len() == 16,
    ensures
        (r.0@, r.1@, r.2@) == bac_eifd_mifd_of(
            rnd_ic@,
            rnd_ifd@,
            k_ifd@,
            k_seed_of(document_number@, date_of_birth@, date_of_expiry@),
        ),
        r.0@.len() == 16,
        r.1@.len() == 32,
        r.2@.len() == 8,
{
    let mut shared_secret: Vec<u8> = Vec::new();
    append_bytes(&mut shared_secret, rnd_ifd);
    append_bytes(&mut shared_secret, rnd_ic);
    append_bytes(&mut shared_secret, k_ifd);
    let k_seed = calculate_bac_k_seed(document_number, date_of_birth, date_of_expiry);
    let k_enc = kdf_sha1(k_seed.as_slice(), 1);
    let k_mac = kdf_sha1(k_seed.as_slice(), 2);
    let e_ifd = tdes_enc(k_enc.as_slice(), shared_secret.as_slice());
    let padded = padding_method_2_pad(e_ifd.as_slice());
    let m_ifd = retail_mac(k_mac.as_slice(), padded.as_slice());
    (k_enc, e_ifd, m_ifd)
}

/// Bytewise XOR of two 16-byte keys.
pub open spec fn xor16(a: Seq<u8>, b: Seq<u8>) -> Seq<u8> {
    Seq::new(16, |i: int| a[i] ^ b[i])
}

/// What the EXTERNAL AUTHENTICATE response decrypts to under `K.enc`.
pub open spec fn bac_response_plain(auth_resp: Seq<u8>, k_enc: Seq<u8>) -> Seq<u8> {
    tdes_cbc_decrypt_of(k_enc, auth_resp)
}

/// Whether the decrypted response carries our `RND.IFD` back.
pub open spec fn bac_response_matches(auth_resp: Seq<u8>, k_enc: Seq<u8>, rnd_ifd: Seq<u8>) -> bool {
    bac_response_plain(auth_resp, k_enc).subrange(8, 16) == rnd_ifd
}

/// The session key seed `K.IFD xor K.IC`.
pub open spec fn session_seed_of(auth_resp: Seq<u8>, k_enc: Seq<u8>, k_ifd: Seq<u8>) -> Seq<u8> {
    xor16(k_ifd, bac_response_plain(auth_resp, k_enc).subrange(16, 32))
}

/// Computes the BAC session keys `KS.enc` and `KS.mac` from the response to
/// EXTERNAL AUTHENTICATE. Gives none when the decrypted response does not
/// carry our `RND.IFD` (authentication failure).
pub fn calculate_bac_session_keys(auth_resp: &[u8], k_enc: &[u8], rnd_ifd: &[u8], k_ifd: &[u8]) -> (r:
    Option<(Vec<u8>, Vec<u8>)>)
    requires
        auth_resp@.len() >= 32,
        auth_resp@.len() % 8 == 0,
        k_enc@.len() == 16,
        rnd_ifd@.len() == 8,
        k_ifd@.len() == 16,
    ensures
        r is Some <==> bac_response_matches(auth_resp@, k_enc@, rnd_ifd@),
        r matches Some(keys) ==> keys.0@ == kdf_of(session_seed_of(auth_resp@, k_enc@, k_ifd@), 1)
            && keys.1@ == kdf_of(session_seed_of(auth_resp@, k_enc@, k_ifd@), 2),
        r matches Some(keys) ==> keys.0@.len() == 16 && keys.1@.len() == 16,
{
    let dec = tdes_dec(k_enc, auth_resp);
    let received = copy_range(dec.as_slice(), 8, 16);
    let same = bytes_equal(received.as_slice(), rnd_ifd);
    if !same {
        return None;
    }
    let mut k_seed: Vec<u8> = Vec::new();
    let mut j: usize = 0;
    while j < 16
        invariant
            j <= 16,
            dec@.len() == auth_resp@.len(),
            dec@.len() >= 32,
            k_ifd@.len() == 16,
            k_seed@ =~= Seq::new(j as nat, |x: int| k_ifd@[x] ^ dec@[16 + x]),
        decreases 16 - j,
    {
        k_seed.push(k_ifd[j] ^ dec[16 + j]);
        j = j + 1;
    }
    assert(k_seed@ =~= session_seed_of(auth_resp@, k_enc@, k_ifd@));
    let ks_enc = kdf_sha1(k_seed.as_slice(), 1);
    let ks_mac = kdf_sha1(k_seed.as_slice(), 2);
    Some((ks_enc, ks_mac))
}

/// A 64-bit number from its eight big-endian bytes.
pub open spec fn be64(s: Seq<u8>) -> nat {
    (s[0] as nat) * 0x100_0000_0000_0000 + (s[1] as nat) * 0x1_0000_0000_0000 + (s[2] as nat)
        * 0x100_0000_0000 + (s[3] as nat) * 0x1_0000_0000 + (s[4] as nat) * 0x100_0000 + (
    s[5] as nat) * 0x1_0000 + (s[6] as nat) * 0x100 + (s[7] as nat)
}

/// The initial send sequence counter of BAC: the last four bytes of `RND.IC`
/// followed by the last four of `RND.IFD`, read as a big-endian number.
pub open spec fn initial_ssc_of(rnd_ic: Seq<u8>, rnd_ifd: Seq<u8>) -> nat {
    be64(rnd_ic.subrange(4, 8) + rnd_ifd.subrange(4, 8))
}

/// Computes the initial send sequence counter for BAC.
pub fn calculate_initial_ssc_bac(rnd_ic: &[u8], rnd_ifd: &[u8]) -> (r: u64)
    requires
        rnd_ic@.len() >= 8,
        rnd_ifd@.len() >= 8,
    ensures
        r as nat == initial_ssc_of(rnd_ic@, rnd_ifd@),
{
    let ghost s = rnd_ic@.subrange(4, 8) + rnd_ifd@.subrange(4, 8);
    assert(s[0] == rnd_ic@[4] && s[1] == rnd_ic@[5] && s[2] == rnd_ic@[6] && s[3] == rnd_ic@[7]);
    assert(s[4] == rnd_ifd@[4] && s[5] == rnd_ifd@[5] && s[6] == rnd_ifd@[6] && s[7]
        == rnd_ifd@[7]);
    (rnd_ic[4] as u64) * 0x100_0000_0000_0000 + (rnd_ic[5] as u64) * 0x1_0000_0000_0000
        + (rnd_ic[6] as u64) * 0x100_0000_0000 + (rnd_ic[7] as u64) * 0x1_0000_0000
        + (rnd_ifd[4] as u64) * 0x100_0000 + (rnd_ifd[5] as u64) * 0x1_0000 + (rnd_ifd[6] as u64)
        * 0x100 + (rnd_ifd[7] as u64)
}


/// Relies on `rand::rng()` and `rand::Rng::fill`: `n` bytes drawn from the
/// thread-local generator. Nothing is promised of their values.
#[verifier::external_body]
fn random_bytes(n: usize) -> (r: Vec<u8>)
    ensures
        r@.len() == n,
{
    let mut v = vec![0u8; n];
    rand::Rng::fill(&mut rand::rng(), &mut v[..]);
    v
}

/// A BAC session established from a challenge `RND.IC`, our `RND.IFD` and
/// `K.IFD`, and the card's answer `resp` (its first 40 bytes): the answer
/// carried `RND.IFD` back, the session keys derive from `K.IFD xor K.IC`, and
/// the counter from the two random numbers.
pub open spec fn bac_session_of(
    keys: (Vec<u8>, Vec<u8>, u64),
    rnd_ic: Seq<u8>,
    rnd_ifd: Seq<u8>,
    k_ifd: Seq<u8>,
    resp: Seq<u8>,
    k_seed: Seq<u8>,
) -> bool {
    let k_enc = kdf_of(k_seed, 1);
    &&& rnd_ic.len() == 8 && rnd_ifd.len() == 8 && k_ifd.len() == 16 && resp.len() == 40
    &&& bac_response_matches(resp, k_enc, rnd_ifd)
    &&& keys.0@ == kdf_of(session_seed_of(resp, k_enc, k_ifd), 1)
    &&& keys.1@ == kdf_of(session_seed_of(resp, k_enc, k_ifd), 2)
    &&& keys.2 as nat == initial_ssc_of(rnd_ic, rnd_ifd)
}

/// Why Basic Access Control failed.
#[derive(Debug, Clone, Copy, PartialEq, Eq, Structural)]
pub enum BacError {
    /// The exchange with the card failed.
    Exchange(ExchangeError),
    /// GET CHALLENGE gave fewer than 8 bytes.
    ShortChallenge,
    /// EXTERNAL AUTHENTICATE gave fewer than 40 bytes.
    ShortResponse,
    /// The card did not return our `RND.IFD`: the MRZ data is wrong.
    AuthenticationFailed,
}

/// `RND.IC` from the answer to GET CHALLENGE: its first 8 bytes.
pub open spec fn challenge_of(rapdu: Seq<u8>) -> Result<Seq<u8>, BacError> {
    if rapdu.len() < 8 {
        Err(BacError::ShortChallenge)
    } else {
        Ok(rapdu.subrange(0, 8))
    }
}

/// Takes `RND.IC` from the answer to GET CHALLENGE.
pub fn take_challenge(rapdu: &Vec<u8>) -> (r: Result<Vec<u8>, BacError>)
    ensures
        match challenge_of(rapdu@) {
            Ok(c) => r is Ok && r.unwrap()@ == c,
            Err(e) => r == Err::<Vec<u8>, BacError>(e),
        },
{
    if rapdu.len() < 8 {
        return Err(BacError::ShortChallenge);
    }
    Ok(copy_range(rapdu.as_slice(), 0, 8))
}

/// `E.IC || M.IC` from the answer to EXTERNAL AUTHENTICATE: its first 40
/// bytes.
pub open spec fn auth_response_of(rapdu: Seq<u8>) -> Result<Seq<u8>, BacError> {
    if rapdu.len() < 40 {
        Err(BacError::ShortResponse)
    } else {
        Ok(rapdu.subrange(0, 40))
    }
}

/// Takes `E.IC || M.IC` from the answer to EXTERNAL AUTHENTICATE.
pub fn take_auth_response(rapdu: &Vec<u8>) -> (r: Result<Vec<u8>, BacError>)
    ensures
        match auth_response_of(rapdu@) {
            Ok(c) => r is Ok && r.unwrap()@ == c,
            Err(e) => r == Err::<Vec<u8>, BacError>(e),
        },
{
    if rapdu.len() < 40 {
        return Err(BacError::ShortResponse);
    }
    Ok(copy_range(rapdu.as_slice(), 0, 40))
}

/// Authenticates with Basic Access Control and returns the session keys
/// `KS.enc`, `KS.mac` and the initial send sequence counter.
///
/// Sends GET CHALLENGE (`apdu_get_challenge`) and takes `RND.IC` with
/// `take_challenge`, draws `RND.IFD` and `K.IFD`, sends EXTERNAL
/// AUTHENTICATE (`apdu_external_authentication`) with `E.IFD || M.IFD` from
/// `calculate_bac_eifd_and_mifd`, takes the answer with
/// `take_auth_response`, and derives the session with
/// `calculate_bac_session_keys` and `calculate_initial_ssc_bac`.
pub fn do_bac_authentication<C: Smartcard>(
    port: &mut C,
    document_number: &String,
    date_of_birth: &String,
    date_of_expiry: &String,
) -> (r: Result<(Vec<u8>, Vec<u8>, u64), BacError>)
    ensures
        r matches Ok(k) ==> k.0@.len() == 16 && k.1@.len() == 16,
        r matches Ok(k) ==> exists|rnd_ic: Seq<u8>, rnd_ifd: Seq<u8>, k_ifd: Seq<u8>, resp: Seq<u8>|
            #[trigger] bac_session_of(
                k,
                rnd_ic,
                rnd_ifd,
                k_ifd,
                resp,
                k_seed_of(document_number@, date_of_birth@, date_of_expiry@),
            ),
{
    let mut challenge = apdu_get_challenge();
    let (rapdu, _) = match challenge.exchange(port, true) {
        Ok(x) => x,
        Err(e) => return Err(BacError::Exchange(e)),
    };
    let rnd_ic = match take_challenge(&rapdu) {
        Ok(c) => c,
        Err(e) => return Err(e),
    };
    let rnd_ifd = random_bytes(8);
    let k_ifd = random_bytes(16);
    let (k_enc, e_ifd, m_ifd) = calculate_bac_eifd_and_mifd(
        rnd_ic.as_slice(),
        rnd_ifd.as_slice(),
        k_ifd.as_slice(),
        document_number,
        date_of_birth,
        date_of_expiry,
    );
    let mut external_auth_data = e_ifd;
    append_bytes(&mut external_auth_data, m_ifd.as_slice());
    let mut auth = apdu_external_authentication(external_auth_data);
    let (rapdu, _) = match auth.exchange(port, true) {
        Ok(x) => x,
        Err(e) => return Err(BacError::Exchange(e)),
    };
    let auth_resp = match take_auth_response(&rapdu) {
        Ok(a) => a,
        Err(e) => return Err(e),
    };
    let (ks_enc, ks_mac) = match calculate_bac_session_keys(
        auth_resp.as_slice(),
        k_enc.as_slice(),
        rnd_ifd.as_slice(),
        k_ifd.as_slice(),
    ) {
        Some(keys) => keys,
        None => return Err(BacError::AuthenticationFailed),
    };
    let ssc = calculate_initial_ssc_bac(rnd_ic.as_slice(), rnd_ifd.as_slice());
    let keys = (ks_enc, ks_mac, ssc);
    let ghost seed = k_seed_of(document_number@, date_of_birth@, date_of_expiry@);
    assert(bac_session_of(keys, rnd_ic@, rnd_ifd@, k_ifd@, auth_resp@, seed));
    let r = Ok(keys);
    assert(r matches Ok(k) && bac_session_of(k, rnd_ic@, rnd_ifd@, k_ifd@, auth_resp@, seed));
    r
}

/// Authenticates to the chip. PACE is not implemented, so this is BAC
/// whether or not the document offers PACE.
pub fn do_authentication<C: Smartcard>(
    pace_available: bool,
    smartcard: &mut C,
    document_number: &String,
    date_of_birth: &String,
    date_of_expiry: &String,
) -> (r: Result<(Vec<u8>, Vec<u8>, u64), BacError>)
    ensures
        r matches Ok(k) ==> k.0@.len() == 16 && k.1@.len() == 16,
        r matches Ok(k) ==> exists|rnd_ic: Seq<u8>, rnd_ifd: Seq<u8>, k_ifd: Seq<u8>, resp: Seq<u8>|
            #[trigger] bac_session_of(
                k,
                rnd_ic,
                rnd_ifd,
                k_ifd,
                resp,
                k_seed_of(document_number@, date_of_birth@, date_of_expiry@),
            ),
{
    do_bac_authentication(smartcard, document_number, date_of_birth, date_of_expiry)
}

} // verus!
