use std::collections::HashMap;

use passauf::crypto::{kdf_sha1, padding_method_2_pad, padding_method_2_unpad, retail_mac, tdes_dec, tdes_enc};
use passauf::icao9303::calculate_initial_ssc_bac;
use passauf::data_groups::DataGroupEnum;
use passauf::helpers::{
    lds1_files_to_read, master_files_to_read, read_document, read_file, read_lds1_files,
    secure_read_file_by_name,
};
use passauf::iso7816::{apdu_select_file_by_ef, ssc_to_bytes, ExchangeError, SmError};
use passauf::parsed_data_groups::{EFCom, ParsedDataGroup};
use passauf::smartcard::Smartcard;
use passauf::tlv::{get_tlv_by_tag, Tlv};

fn hex(s: &str) -> Vec<u8> {
    let s: String = s.chars().filter(|c| !c.is_whitespace()).collect();
    (0..s.len())
        .step_by(2)
        .map(|i| u8::from_str_radix(&s[i..i + 2], 16).unwrap())
        .collect()
}

fn tlv(tag: &[u8], value: &[u8]) -> Vec<u8> {
    let t = Tlv { tag: if tag.len() == 1 { tag[0] as u16 } else { u16::from_be_bytes([tag[0], tag[1]]) }, value: value.to_vec() };
    t.to_vec()
}

/// A card that holds files and speaks BAC Secure Messaging with fixed keys.
struct SimulatedCard {
    files: HashMap<u16, Vec<u8>>,
    ks_enc: Vec<u8>,
    ks_mac: Vec<u8>,
    ssc: u64,
    secure: bool,
    selected: Option<u16>,
    selects: Vec<u16>,
    /// Files under the master file, served until the LDS1 applet is selected.
    mf_files: HashMap<u16, Vec<u8>>,
    in_lds1: bool,
    /// BAC keys from the MRZ, `RND.IC` and `K.IC`.
    bac: Option<(Vec<u8>, Vec<u8>, Vec<u8>, Vec<u8>)>,
}

impl SimulatedCard {
    fn plain(&mut self, ins: u8, p1: u8, p2: u8, data: &[u8], le: usize) -> (Vec<u8>, [u8; 2]) {
        match ins {
            0xA4 if p1 == 0x04 => {
                self.in_lds1 = data == vec![0xA0, 0x00, 0x00, 0x02, 0x47, 0x10, 0x01];
                (vec![], if self.in_lds1 { [0x90, 0x00] } else { [0x6A, 0x82] })
            }
            0x84 => (self.bac.as_ref().unwrap().2.clone(), [0x90, 0x00]),
            0x82 => {
                let (k_enc, k_mac, rnd_ic, k_ic) = self.bac.clone().unwrap();
                let (e_ifd, m_ifd) = data.split_at(32);
                if retail_mac(&k_mac, &padding_method_2_pad(e_ifd)) != m_ifd {
                    return (vec![], [0x63, 0x00]);
                }
                let s = tdes_dec(&k_enc, e_ifd);
                let (rnd_ifd, k_ifd) = (s[0..8].to_vec(), s[16..32].to_vec());
                let e_ic = tdes_enc(&k_enc, &[rnd_ic.clone(), rnd_ifd.clone(), k_ic.clone()].concat());
                let m_ic = retail_mac(&k_mac, &padding_method_2_pad(&e_ic));
                let seed: Vec<u8> = k_ifd.iter().zip(k_ic.iter()).map(|(a, b)| a ^ b).collect();
                self.ks_enc = kdf_sha1(&seed, 1);
                self.ks_mac = kdf_sha1(&seed, 2);
                self.ssc = calculate_initial_ssc_bac(&rnd_ic, &rnd_ifd);
                self.secure = true;
                ([e_ic, m_ic].concat(), [0x90, 0x00])
            }
            0xA4 => {
                let fid = u16::from_be_bytes([data[0], data[1]]);
                self.selects.push(fid);
                let table = if self.in_lds1 { &self.files } else { &self.mf_files };
                if table.contains_key(&fid) {
                    self.selected = Some(fid);
                    (vec![], [0x90, 0x00])
                } else {
                    (vec![], [0x6A, 0x82])
                }
            }
            0xB0 => {
                let table = if self.in_lds1 { &self.files } else { &self.mf_files };
                let file = &table[&self.selected.unwrap()];
                let off = u16::from_be_bytes([p1, p2]) as usize;
                let end = (off + le).min(file.len());
                (file[off.min(end)..end].to_vec(), [0x90, 0x00])
            }
            _ => (vec![], [0x6D, 0x00]),
        }
    }
}

impl Smartcard for SimulatedCard {
    fn exchange_command(&mut self, data: &Vec<u8>) -> Option<Vec<u8>> {
        self.exchange_apdu(data)
    }

    fn exchange_apdu(&mut self, apdu: &Vec<u8>) -> Option<Vec<u8>> {
        let (ins, p1, p2) = (apdu[1], apdu[2], apdu[3]);
        if !self.secure {
            let (data, le) = if apdu.len() == 5 {
                (vec![], apdu[4] as usize)
            } else if apdu.len() > 5 {
                let lc = apdu[4] as usize;
                let le = if apdu.len() > 5 + lc { apdu[5 + lc] as usize } else { 0 };
                (apdu[5..5 + lc].to_vec(), le)
            } else {
                (vec![], 0)
            };
            let (out, sw) = self.plain(ins, p1, p2, &data, le);
            return Some([out, sw.to_vec()].concat());
        }
        // Check the command MAC under the next counter value.
        self.ssc += 1;
        let lc = apdu[4] as usize;
        let body = &apdu[5..5 + lc];
        let tlvs = Tlv::parse_all(body);
        let mut mac_input = ssc_to_bytes(self.ssc);
        mac_input.extend(padding_method_2_pad(&apdu[0..4]));
        let mut data = vec![];
        let mut le = 0usize;
        for t in &tlvs {
            if t.tag == 0x87 {
                mac_input.extend(t.to_vec());
                data = padding_method_2_unpad(&tdes_dec(&self.ks_enc, &t.value[1..])).unwrap();
            } else if t.tag == 0x97 {
                mac_input.extend(t.to_vec());
                le = t.value[0] as usize;
            }
        }
        let mac = get_tlv_by_tag(&tlvs, 0x8E).unwrap().value.clone();
        if retail_mac(&self.ks_mac, &padding_method_2_pad(&mac_input)) != mac {
            return Some(vec![0x69, 0x88]);
        }
        let (out, sw) = self.plain(ins, p1, p2, &data, le);
        self.ssc += 1;
        let mut resp = vec![];
        if !out.is_empty() {
            let enc = tdes_enc(&self.ks_enc, &padding_method_2_pad(&out));
            resp.extend(tlv(&[0x87], &[vec![0x01], enc].concat()));
        }
        resp.extend(tlv(&[0x99], &sw));
        let mut check = ssc_to_bytes(self.ssc);
        check.extend(&resp);
        let rmac = retail_mac(&self.ks_mac, &padding_method_2_pad(&check));
        resp.extend(tlv(&[0x8E], &rmac));
        resp.extend(sw);
        Some(resp)
    }
}

const KS_ENC: &str = "979EC13B1CBFE9DCD01AB0FED307EAE5";
const KS_MAC: &str = "F1CB1F1FB5ADF208806B89DC579DC1F8";
const TD1_SHORT: &str =
    "I<UTO1234567897ABCDEFGH<<<<<<<0001029<3001020UTO<<<<<<<<<<<8MUSTERMANN<<ERIKA<<<<<<<<<<<<<";

fn card() -> SimulatedCard {
    let mut files = HashMap::new();
    files.insert(0x011E, hex("600C 5F0104 30313037 5C03 616B75"));
    files.insert(0x0101, tlv(&[0x61], &tlv(&[0x5F, 0x1F], TD1_SHORT.as_bytes())));
    files.insert(0x010B, tlv(&[0x6B], &tlv(&[0x5F, 0x0E], b"MUSTERMANN<<ERIKA")));
    files.insert(0x010C, tlv(&[0x6C], &tlv(&[0x5F, 0x19], b"UTOPIA")));
    let mut big = vec![0u8; 300];
    big[0] = 0x04;
    files.insert(0x0105, tlv(&[0x65], &tlv(&[0x5F, 0x40], &big)));
    files.insert(0x2F00, hex("6103 4F0100"));
    SimulatedCard {
        files,
        ks_enc: hex(KS_ENC),
        ks_mac: hex(KS_MAC),
        ssc: 0x887022120C06C226,
        secure: true,
        selected: None,
        selects: vec![],
        mf_files: HashMap::new(),
        in_lds1: true,
        bac: None,
    }
}

#[test]
fn reads_exactly_the_files_listed_in_ef_com() {
    let mut sim = card();
    let mut ssc: u64 = 0x887022120C06C226;
    let (_, _, parsed) = secure_read_file_by_name(
        &mut sim,
        DataGroupEnum::EFCom,
        true,
        &mut ssc,
        &hex(KS_ENC),
        &hex(KS_MAC),
    )
    .unwrap();
    let ef_com = match parsed {
        Some(ParsedDataGroup::EFCom(c)) => c,
        other => panic!("expected EF.COM, got {:?}", other),
    };
    assert_eq!(ef_com.data_group_tag_list, vec![0x61, 0x6B, 0x75]);
    sim.selects.clear();
    let read = read_lds1_files(&mut sim, &ef_com, false, &mut ssc, &hex(KS_ENC), &hex(KS_MAC)).unwrap();
    let ids: Vec<DataGroupEnum> = read.iter().map(|f| f.dg_info.id).collect();
    assert_eq!(ids, vec![DataGroupEnum::EFDG1, DataGroupEnum::EFDG2, DataGroupEnum::EFDG11]);
    assert_eq!(sim.selects, vec![0x0101, 0x0102, 0x010B]);
    assert!(matches!(read[0].parsed, Some(ParsedDataGroup::EFDG1(_))));
    assert!(read[1].data.is_none());
    assert!(matches!(read[2].parsed, Some(ParsedDataGroup::EFDG11(_))));
    assert_eq!(ssc, sim.ssc);
}

#[test]
fn reads_long_file_in_chunks_under_secure_messaging() {
    let mut sim = card();
    let mut ssc: u64 = 0x887022120C06C226;
    let com = EFCom { lds_version: None, unicode_version: None, data_group_tag_list: vec![0x65] };
    let read = read_lds1_files(&mut sim, &com, false, &mut ssc, &hex(KS_ENC), &hex(KS_MAC)).unwrap();
    assert_eq!(read.len(), 1);
    assert_eq!(read[0].data.as_ref().unwrap().len(), 309);
    match &read[0].parsed {
        Some(ParsedDataGroup::EFDG5(d)) => assert_eq!(d.displayed_portraits[0].len(), 300),
        other => panic!("expected EF.DG5, got {:?}", other),
    }
}

#[test]
fn stale_counter_is_refused_by_the_card() {
    let mut sim = card();
    let mut ssc: u64 = 0x887022120C06C225;
    let mut select = apdu_select_file_by_ef(0x011E);
    let r = select.secure_exchange(&mut sim, true, true, &mut ssc, &hex(KS_ENC), &hex(KS_MAC));
    assert_eq!(r, Err(ExchangeError::Secure(SmError::MissingMac)));
}

#[test]
fn plain_read_of_master_file() {
    let mut sim = card();
    sim.secure = false;
    let dir = DataGroupEnum::EFDir.info();
    let (data, parsed) = read_file(&mut sim, &dir).unwrap();
    assert_eq!(data, Some(hex("61034F0100")));
    assert!(parsed.is_none());
    let missing = DataGroupEnum::EFAtrInfo.info();
    assert_eq!(read_file(&mut sim, &missing).unwrap(), (None, None));
}

#[test]
fn selection_follows_ef_com_and_access_rules() {
    let tags = vec![0x61, 0x75, 0x6B, 0x6C];
    assert_eq!(
        lds1_files_to_read(&tags, false),
        vec![DataGroupEnum::EFDG1, DataGroupEnum::EFDG2, DataGroupEnum::EFDG11, DataGroupEnum::EFDG12]
    );
    let tags = vec![0x61, 0x63, 0x6E, 0x77];
    assert_eq!(lds1_files_to_read(&tags, false), vec![DataGroupEnum::EFDG1]);
    assert_eq!(
        lds1_files_to_read(&tags, true),
        vec![DataGroupEnum::EFDG1, DataGroupEnum::EFDG3, DataGroupEnum::EFDG14, DataGroupEnum::EFSod]
    );
    assert_eq!(
        master_files_to_read(false),
        vec![DataGroupEnum::EFAtrInfo, DataGroupEnum::EFDir]
    );
    assert_eq!(
        master_files_to_read(true),
        vec![DataGroupEnum::EFCardSecurity, DataGroupEnum::EFAtrInfo, DataGroupEnum::EFDir]
    );
}

#[test]
fn reads_a_whole_document_through_bac() {
    let mut sim = card();
    sim.secure = false;
    sim.in_lds1 = false;
    sim.mf_files.insert(0x2F00, hex("6103 4F0100"));
    sim.bac = Some((
        hex("AB94FDECF2674FDFB9B391F85D7F76F2"),
        hex("7962D9ECE03D1ACD4C76089DCE131543"),
        hex("4608F91988702212"),
        hex("0B4F80323EB3191CB04970CB4052790B"),
    ));
    let doc = read_document(
        &mut sim,
        &"L898902C<".to_string(),
        &"690806".to_string(),
        &"940623".to_string(),
        false,
    )
    .unwrap();
    assert!(doc.card_access.data.is_none());
    let mf: Vec<DataGroupEnum> = doc.master_files.iter().map(|f| f.dg_info.id).collect();
    assert_eq!(mf, vec![DataGroupEnum::EFAtrInfo, DataGroupEnum::EFDir]);
    assert_eq!(doc.master_files[1].data, Some(hex("61034F0100")));
    assert!(matches!(doc.ef_com.parsed, Some(ParsedDataGroup::EFCom(_))));
    let ids: Vec<DataGroupEnum> = doc.lds1_files.iter().map(|f| f.dg_info.id).collect();
    assert_eq!(ids, vec![DataGroupEnum::EFDG1, DataGroupEnum::EFDG2, DataGroupEnum::EFDG11]);
    assert!(!sim.selects.contains(&0x010C));
    assert!(!sim.selects.contains(&0x0105));
    match &doc.lds1_files[0].parsed {
        Some(ParsedDataGroup::EFDG1(d)) => assert!(matches!(d.mrz, passauf::mrz::MRZ::TD1(_))),
        other => panic!("expected EF.DG1, got {:?}", other),
    }
}
