use passauf::crypto::{
    kdf_sha1, padding_method_2_pad, padding_method_2_unpad, retail_mac, tdes_dec, tdes_enc,
};
use passauf::icao9303::{
    calculate_bac_eifd_and_mifd, calculate_bac_k_seed, calculate_bac_session_keys,
    calculate_initial_ssc_bac,
};

fn hex(s: &str) -> Vec<u8> {
    let s: String = s.chars().filter(|c| !c.is_whitespace()).collect();
    (0..s.len())
        .step_by(2)
        .map(|i| u8::from_str_radix(&s[i..i + 2], 16).unwrap())
        .collect()
}

/// DES ignores the low bit of each key byte (parity); the published keys
/// have it adjusted, the derivation leaves it as SHA-1 gives it.
fn without_parity(k: &[u8]) -> Vec<u8> {
    k.iter().map(|b| b & 0xFE).collect()
}

const RND_IC: &str = "4608F91988702212";
const RND_IFD: &str = "781723860C06C226";
const K_IFD: &str = "0B795240CB7049B01C19B33E32804F0B";
const K_ENC: &str = "AB94FDECF2674FDFB9B391F85D7F76F2";
const K_MAC: &str = "7962D9ECE03D1ACD4C76089DCE131543";
const E_IFD: &str = "72C29C2371CC9BDB65B779B8E8D37B29ECC154AA56A8799FAE2F498F76ED92F2";
const M_IFD: &str = "5F1448EEA8AD90A7";
const E_IC: &str = "46B9342A41396CD7386BF5803104D7CEDC122B9132139BAF2EEDC94EE178534F";
const M_IC: &str = "2F2D235D074D7449";
const KS_ENC: &str = "979EC13B1CBFE9DCD01AB0FED307EAE5";
const KS_MAC: &str = "F1CB1F1FB5ADF208806B89DC579DC1F8";

#[test]
fn pad_aligned_input_gains_full_block() {
    let input = hex("0001020304050607");
    let padded = padding_method_2_pad(&input);
    assert_eq!(padded, hex("0001020304050607 8000000000000000"));
    assert_eq!(padded.len(), 16);
    assert_eq!(padding_method_2_unpad(&padded), Some(input));
}

#[test]
fn pad_unaligned_and_empty_inputs() {
    assert_eq!(padding_method_2_pad(&hex("0C A4 02 0C")), hex("0CA4020C80000000"));
    assert_eq!(padding_method_2_pad(&[]), hex("8000000000000000"));
    for n in 0..20usize {
        let data: Vec<u8> = (0..n as u8).collect();
        let padded = padding_method_2_pad(&data);
        assert_eq!(padded.len(), n + 8 - n % 8);
        assert_eq!(padding_method_2_unpad(&padded), Some(data));
    }
}

#[test]
fn unpad_rejects_malformed_padding() {
    assert_eq!(padding_method_2_unpad(&hex("0102030405060700")), None);
    assert_eq!(padding_method_2_unpad(&[]), None);
    assert_eq!(padding_method_2_unpad(&hex("0000")), None);
    assert_eq!(padding_method_2_unpad(&hex("01 80 00")), Some(vec![1]));
}

#[test]
fn bac_key_derivation_worked_example() {
    let k_seed = calculate_bac_k_seed(
        &"L898902C<".to_string(),
        &"690806".to_string(),
        &"940623".to_string(),
    );
    assert_eq!(k_seed, hex("239AB9CB282DAF66231DC5A4DF6BFBAE"));
    assert_eq!(without_parity(&kdf_sha1(&k_seed, 1)), without_parity(&hex(K_ENC)));
    assert_eq!(without_parity(&kdf_sha1(&k_seed, 2)), without_parity(&hex(K_MAC)));
    assert_eq!(kdf_sha1(&k_seed, 1), hex("AB94FCEDF2664EDFB9B291F85D7F77F2"));
}

#[test]
fn bac_key_derivation_without_filler_in_number() {
    let a = calculate_bac_k_seed(&"L898902C".to_string(), &"690806".to_string(), &"940623".to_string());
    let b = calculate_bac_k_seed(&"L898902C<".to_string(), &"690806".to_string(), &"940623".to_string());
    assert_ne!(a, b);
    assert_eq!(a.len(), 16);
}

#[test]
fn bac_eifd_and_mifd_worked_example() {
    let (k_enc, e_ifd, m_ifd) = calculate_bac_eifd_and_mifd(
        &hex(RND_IC),
        &hex(RND_IFD),
        &hex(K_IFD),
        &"L898902C<".to_string(),
        &"690806".to_string(),
        &"940623".to_string(),
    );
    assert_eq!(without_parity(&k_enc), without_parity(&hex(K_ENC)));
    assert_eq!(e_ifd, hex(E_IFD));
    assert_eq!(m_ifd, hex(M_IFD));
}

#[test]
fn retail_mac_worked_example() {
    let mut data = hex(E_IFD);
    data = padding_method_2_pad(&data);
    assert_eq!(retail_mac(&hex(K_MAC), &data), hex(M_IFD));
}

#[test]
fn tdes_round_trip() {
    let key = hex(K_ENC);
    for n in [0usize, 8, 16, 40] {
        let data: Vec<u8> = (0..n).map(|i| (i * 37 + 5) as u8).collect();
        let enc = tdes_enc(&key, &data);
        assert_eq!(enc.len(), n);
        if n > 0 {
            assert_ne!(enc, data);
        }
        assert_eq!(tdes_dec(&key, &enc), data);
    }
}

#[test]
fn tdes_encrypts_worked_example() {
    let s = [hex(RND_IFD), hex(RND_IC), hex(K_IFD)].concat();
    assert_eq!(tdes_enc(&hex(K_ENC), &s), hex(E_IFD));
}

#[test]
fn bac_session_keys_worked_example() {
    let resp = [hex(E_IC), hex(M_IC)].concat();
    let (ks_enc, ks_mac) =
        calculate_bac_session_keys(&resp, &hex(K_ENC), &hex(RND_IFD), &hex(K_IFD)).unwrap();
    assert_eq!(without_parity(&ks_enc), without_parity(&hex(KS_ENC)));
    assert_eq!(without_parity(&ks_mac), without_parity(&hex(KS_MAC)));
}

#[test]
fn bac_session_keys_reject_wrong_rnd_ifd() {
    let resp = [hex(E_IC), hex(M_IC)].concat();
    let mut rnd_ifd = hex(RND_IFD);
    rnd_ifd[0] ^= 1;
    assert!(calculate_bac_session_keys(&resp, &hex(K_ENC), &rnd_ifd, &hex(K_IFD)).is_none());
}

#[test]
fn initial_ssc_worked_example() {
    assert_eq!(calculate_initial_ssc_bac(&hex(RND_IC), &hex(RND_IFD)), 0x887022120C06C226);
}
