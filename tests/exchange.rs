use passauf::crypto::{padding_method_2_pad, padding_method_2_unpad, retail_mac, tdes_dec, tdes_enc};
use passauf::icao9303::{do_bac_authentication, BacError};
use passauf::iso7816::{
    apdu_get_challenge, apdu_read_binary, parse_secure_rapdu, ssc_to_bytes, ApduCommand, ExchangeError,
    SmError,
};
use passauf::smartcard::Smartcard;
use passauf::tlv::Tlv;

fn hex(s: &str) -> Vec<u8> {
    let s: String = s.chars().filter(|c| !c.is_whitespace()).collect();
    (0..s.len())
        .step_by(2)
        .map(|i| u8::from_str_radix(&s[i..i + 2], 16).unwrap())
        .collect()
}

/// A card that answers from a script, one response per APDU.
struct ScriptedCard {
    answers: Vec<Option<Vec<u8>>>,
    sent: Vec<Vec<u8>>,
}

impl Smartcard for ScriptedCard {
    fn exchange_command(&mut self, data: &Vec<u8>) -> Option<Vec<u8>> {
        self.exchange_apdu(data)
    }
    fn exchange_apdu(&mut self, data: &Vec<u8>) -> Option<Vec<u8>> {
        self.sent.push(data.clone());
        if self.answers.is_empty() {
            return Some(vec![0x6C, 0x08]);
        }
        self.answers.remove(0)
    }
}

#[test]
fn transport_failure() {
    let mut card = ScriptedCard { answers: vec![None], sent: vec![] };
    assert_eq!(apdu_get_challenge().exchange(&mut card, true), Err(ExchangeError::Transport));
}

#[test]
fn short_response() {
    let mut card = ScriptedCard { answers: vec![Some(vec![0x90])], sent: vec![] };
    assert_eq!(apdu_get_challenge().exchange(&mut card, false), Err(ExchangeError::ShortResponse));
}

#[test]
fn wrong_length_is_retried_with_card_length() {
    let mut card = ScriptedCard {
        answers: vec![Some(vec![0x6C, 0x02]), Some(vec![0xAB, 0xCD, 0x90, 0x00])],
        sent: vec![],
    };
    let mut cmd = apdu_read_binary(0, 5);
    assert_eq!(cmd.exchange(&mut card, true), Ok((vec![0xAB, 0xCD], 0x9000)));
    assert_eq!(card.sent, vec![hex("00B0000005"), hex("00B0000002")]);
    assert_eq!(cmd.max_resp_len, 2);
}

#[test]
fn endless_wrong_length_gives_up() {
    let mut card = ScriptedCard { answers: vec![], sent: vec![] };
    let mut cmd = apdu_read_binary(0, 5);
    assert_eq!(cmd.exchange(&mut card, true), Err(ExchangeError::TooManyRetries));
}

#[test]
fn non_success_status_with_assertion() {
    let mut card = ScriptedCard { answers: vec![Some(vec![0x6A, 0x82])], sent: vec![] };
    assert_eq!(apdu_get_challenge().exchange(&mut card, true), Err(ExchangeError::UnexpectedStatus(0x6A82)));
    let mut card = ScriptedCard { answers: vec![Some(vec![0x6A, 0x82])], sent: vec![] };
    assert_eq!(apdu_get_challenge().exchange(&mut card, false), Ok((vec![], 0x6A82)));
}

#[test]
fn secure_failure_is_reported() {
    let mut card = ScriptedCard { answers: vec![Some(hex("8E080000000000000000 9000"))], sent: vec![] };
    let mut ssc: u64 = 1;
    let k = hex("00112233445566778899AABBCCDDEEFF");
    let r = apdu_get_challenge().secure_exchange(&mut card, false, true, &mut ssc, &k, &k);
    assert_eq!(r, Err(ExchangeError::Secure(SmError::MacMismatch)));
    assert_eq!(ssc, 3);
}

#[test]
fn oversized_secure_command_is_refused() {
    let k = hex("00112233445566778899AABBCCDDEEFF");
    let cmd = ApduCommand { cla: 0, ins: 0xD6, p1: 0, p2: 0, data: vec![0; 0xFFF0], max_resp_len: 0 };
    let mut ssc: u64 = 9;
    assert_eq!(cmd.bac_secure_serialize(&mut ssc, &k, &k), Err(SmError::DataTooLong));
    assert_eq!(ssc, 9);
}

#[test]
fn malformed_cryptogram_is_refused() {
    let k = hex("00112233445566778899AABBCCDDEEFF");
    let enc = tdes_enc(&k, &hex("0102030405060708"));
    let do87 = Tlv { tag: 0x87, value: [vec![0x02], enc].concat() }.to_vec();
    let ssc: u64 = 41;
    let mut check = ssc_to_bytes(ssc + 1);
    check.extend(&do87);
    let mac = retail_mac(&k, &padding_method_2_pad(&check));
    let body = [do87, Tlv { tag: 0x8E, value: mac }.to_vec()].concat();
    let mut counter = ssc;
    assert_eq!(parse_secure_rapdu(&body, &mut counter, &k, &k), Err(SmError::MalformedCryptogram));
    assert_eq!(counter, ssc + 1);
}

/// A card that runs its side of BAC for the ICAO 9303 worked example MRZ.
struct BacCard {
    k_enc: Vec<u8>,
    k_mac: Vec<u8>,
    rnd_ic: Vec<u8>,
    k_ic: Vec<u8>,
    mirror: bool,
}

impl Smartcard for BacCard {
    fn exchange_command(&mut self, data: &Vec<u8>) -> Option<Vec<u8>> {
        self.exchange_apdu(data)
    }
    fn exchange_apdu(&mut self, apdu: &Vec<u8>) -> Option<Vec<u8>> {
        match apdu[1] {
            0x84 => Some([self.rnd_ic.clone(), vec![0x90, 0x00]].concat()),
            0x82 => {
                let body = &apdu[5..5 + 40];
                let (e_ifd, m_ifd) = body.split_at(32);
                if retail_mac(&self.k_mac, &padding_method_2_pad(e_ifd)) != m_ifd {
                    return Some(vec![0x63, 0x00]);
                }
                let s = tdes_dec(&self.k_enc, e_ifd);
                let mut rnd_ifd = s[0..8].to_vec();
                if !self.mirror {
                    rnd_ifd[0] ^= 0xFF;
                }
                let r = [self.rnd_ic.clone(), rnd_ifd, self.k_ic.clone()].concat();
                let e_ic = tdes_enc(&self.k_enc, &r);
                let m_ic = retail_mac(&self.k_mac, &padding_method_2_pad(&e_ic));
                Some([e_ic, m_ic, vec![0x90, 0x00]].concat())
            }
            _ => Some(vec![0x6D, 0x00]),
        }
    }
}

fn bac_card(mirror: bool) -> BacCard {
    BacCard {
        k_enc: hex("AB94FDECF2674FDFB9B391F85D7F76F2"),
        k_mac: hex("7962D9ECE03D1ACD4C76089DCE131543"),
        rnd_ic: hex("4608F91988702212"),
        k_ic: hex("0B4F80323EB3191CB04970CB4052790B"),
        mirror,
    }
}

#[test]
fn bac_with_a_card_that_mirrors_rnd_ifd() {
    let mut card = bac_card(true);
    let (ks_enc, ks_mac, ssc) = do_bac_authentication(
        &mut card,
        &"L898902C<".to_string(),
        &"690806".to_string(),
        &"940623".to_string(),
    )
    .unwrap();
    assert_eq!(ks_enc.len(), 16);
    assert_eq!(ks_mac.len(), 16);
    assert_eq!(ssc >> 32, 0x88702212);
}

#[test]
fn bac_fails_when_rnd_ifd_is_not_mirrored() {
    let mut card = bac_card(false);
    let r = do_bac_authentication(&mut card, &"L898902C<".to_string(), &"690806".to_string(), &"940623".to_string());
    assert_eq!(r, Err(BacError::AuthenticationFailed));
}

#[test]
fn bac_with_wrong_mrz_is_refused_by_the_card() {
    let mut card = bac_card(true);
    let r = do_bac_authentication(&mut card, &"L898902C<".to_string(), &"690806".to_string(), &"940624".to_string());
    assert_eq!(r, Err(BacError::Exchange(ExchangeError::UnexpectedStatus(0x6300))));
}

#[test]
fn bac_with_short_challenge() {
    let mut card = ScriptedCard { answers: vec![Some(vec![1, 2, 3, 0x90, 0x00])], sent: vec![] };
    let r = do_bac_authentication(&mut card, &"A".to_string(), &"000000".to_string(), &"000000".to_string());
    assert_eq!(r, Err(BacError::ShortChallenge));
}

#[test]
fn bac_with_short_authentication_response() {
    let mut card = ScriptedCard {
        answers: vec![Some(hex("4608F91988702212 9000")), Some(vec![0x01, 0x90, 0x00])],
        sent: vec![],
    };
    let r = do_bac_authentication(&mut card, &"A".to_string(), &"000000".to_string(), &"000000".to_string());
    assert_eq!(r, Err(BacError::ShortResponse));
    assert_eq!(card.sent[1].len(), 5 + 40 + 1);
    assert_eq!(padding_method_2_unpad(&hex("80")), Some(vec![]));
}
