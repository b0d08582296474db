use passauf::smartcard::{ParseError, ReaderInterface};
use passauf::iso7816::{
    answer_step, plan_read, split_response, AnswerStep, ReadPlan,
    apdu_read_binary, apdu_select_file_by_ef, apdu_select_file_by_name, file_len_from_header,
    get_status_code, get_status_code_bytes, get_status_code_repr, next_read_step, StatusCode, parse_secure_rapdu, ApduCommand, ReadStep, SmError,
};

fn hex(s: &str) -> Vec<u8> {
    let s: String = s.chars().filter(|c| !c.is_whitespace()).collect();
    (0..s.len())
        .step_by(2)
        .map(|i| u8::from_str_radix(&s[i..i + 2], 16).unwrap())
        .collect()
}

const KS_ENC: &str = "979EC13B1CBFE9DCD01AB0FED307EAE5";
const KS_MAC: &str = "F1CB1F1FB5ADF208806B89DC579DC1F8";

#[test]
fn plain_command_encoding() {
    assert_eq!(apdu_select_file_by_ef(0x011E).serialize(), hex("00A4020C02011E"));
    assert_eq!(apdu_read_binary(0x0102, 5).serialize(), hex("00B0010205"));
    assert_eq!(
        apdu_select_file_by_name(vec![0xA0, 0x00, 0x00, 0x02, 0x47, 0x10, 0x01]).serialize(),
        hex("00A4040C07A0000002471001")
    );
    let extended = ApduCommand { cla: 0, ins: 0xB0, p1: 0, p2: 0, data: vec![], max_resp_len: 0x0120 };
    assert_eq!(extended.serialize(), hex("00B00000000120"));
}

#[test]
fn secure_select_worked_example() {
    let cmd = apdu_select_file_by_ef(0x011E);
    let mut ssc: u64 = 0x887022120C06C226;
    let wrapped = cmd.bac_secure_serialize(&mut ssc, &hex(KS_ENC), &hex(KS_MAC)).unwrap();
    assert_eq!(ssc, 0x887022120C06C227);
    assert_eq!(wrapped, hex("0CA4020C158709016375432908C044F68E08BF8B92D635FF24F800"));
}

#[test]
fn secure_select_response_worked_example() {
    let mut ssc: u64 = 0x887022120C06C227;
    let body = hex("990290008E08FA855A5D4C50A8ED");
    let r = parse_secure_rapdu(&body, &mut ssc, &hex(KS_ENC), &hex(KS_MAC));
    assert_eq!(r, Ok(None));
    assert_eq!(ssc, 0x887022120C06C228);
}

#[test]
fn secure_read_binary_worked_example() {
    let cmd = apdu_read_binary(0, 4);
    let mut ssc: u64 = 0x887022120C06C228;
    let wrapped = cmd.bac_secure_serialize(&mut ssc, &hex(KS_ENC), &hex(KS_MAC)).unwrap();
    assert_eq!(wrapped, hex("0CB000000D9701048E08ED6705417E96BA5500"));
    let body = hex("8709019FF0EC34F9922651990290008E08AD55CC17140B2DED");
    let plain = parse_secure_rapdu(&body, &mut ssc, &hex(KS_ENC), &hex(KS_MAC));
    assert_eq!(plain, Ok(Some(hex("60145F01"))));
    assert_eq!(ssc, 0x887022120C06C22A);
}

#[test]
fn replayed_response_fails_mac_check() {
    let body = hex("990290008E08FA855A5D4C50A8ED");
    let mut ssc: u64 = 0x887022120C06C229;
    let r = parse_secure_rapdu(&body, &mut ssc, &hex(KS_ENC), &hex(KS_MAC));
    assert_eq!(r, Err(SmError::MacMismatch));
}

#[test]
fn odd_instruction_with_data_is_not_implemented() {
    let cmd = ApduCommand { cla: 0, ins: 0xB1, p1: 0, p2: 0, data: vec![1, 2], max_resp_len: 0 };
    let mut ssc: u64 = 5;
    let r = cmd.bac_secure_serialize(&mut ssc, &hex(KS_ENC), &hex(KS_MAC));
    assert_eq!(r, Err(SmError::NotImplemented));
    assert_eq!(ssc, 5);
}

#[test]
fn exhausted_counter_is_an_error() {
    let cmd = apdu_read_binary(0, 4);
    let mut ssc: u64 = u64::MAX;
    let r = cmd.bac_secure_serialize(&mut ssc, &hex(KS_ENC), &hex(KS_MAC));
    assert_eq!(r, Err(SmError::CounterExhausted));
    let r2 = parse_secure_rapdu(&[], &mut ssc, &hex(KS_ENC), &hex(KS_MAC));
    assert_eq!(r2, Err(SmError::CounterExhausted));
}

#[test]
fn response_with_do85_is_not_implemented() {
    let mut ssc: u64 = 1;
    let r = parse_secure_rapdu(&hex("850100"), &mut ssc, &hex(KS_ENC), &hex(KS_MAC));
    assert_eq!(r, Err(SmError::NotImplemented));
    assert_eq!(ssc, 2);
}

#[test]
fn status_word_of_response() {
    assert_eq!(get_status_code(&vec![1, 2, 0x90, 0x00]), 0x9000);
    assert_eq!(get_status_code(&vec![0x6A, 0x82]), 0x6A82);
}

#[test]
fn file_length_discovery() {
    let head = hex("7782012030");
    let file_len = file_len_from_header(&head);
    assert_eq!(file_len, 292);
    assert_eq!(next_read_step(5, file_len, 0x90, 0x00), ReadStep::Continue(0x80));
    assert_eq!(next_read_step(5 + 128, file_len, 0x90, 0x00), ReadStep::Continue(0x80));
    assert_eq!(next_read_step(5 + 256, file_len, 0x90, 0x00), ReadStep::Continue(31));
    assert_eq!(next_read_step(292, file_len, 0x90, 0x00), ReadStep::Done);
    assert_eq!(next_read_step(10, file_len, 0x61, 0x10), ReadStep::Continue(0x10));
    assert_eq!(next_read_step(10, file_len, 0x6A, 0x82), ReadStep::Failed);
    assert_eq!(file_len_from_header(&hex("6014")), 22);
    assert_eq!(file_len_from_header(&hex("608400000100")), 262);
}

#[test]
fn reader_backend_names() {
    assert_eq!(ReaderInterface::from_name("proxmark"), Ok(ReaderInterface::Proxmark));
    assert_eq!(ReaderInterface::from_name("pcsc"), Ok(ReaderInterface::PCSC));
    assert_eq!(ReaderInterface::from_name("usb"), Err(ParseError {}));
    assert_eq!(ReaderInterface::PCSC.name(), "pcsc");
}

#[test]
fn named_status_words() {
    assert_eq!(get_status_code_bytes(&vec![1, 0x6A, 0x82]), vec![0x6A, 0x82]);
    assert_eq!(get_status_code_repr(0x9000), Some(StatusCode::Success));
    assert_eq!(get_status_code_repr(0x6A82), Some(StatusCode::FileNotFound));
    assert_eq!(get_status_code_repr(0x1234), None);
    assert_eq!(StatusCode::FileNotFound.code(), 0x6A82);
    assert_eq!(StatusCode::SecurityStatusNotSatisfied.name(), "SecurityStatusNotSatisfied");
}

#[test]
fn odd_instruction_without_data_is_not_implemented() {
    let cmd = ApduCommand { cla: 0, ins: 0xB1, p1: 0, p2: 0, data: vec![], max_resp_len: 4 };
    let mut ssc: u64 = 5;
    assert_eq!(cmd.bac_secure_serialize(&mut ssc, &hex(KS_ENC), &hex(KS_MAC)), Err(SmError::NotImplemented));
    assert_eq!(ssc, 5);
}

#[test]
fn response_without_mac_is_refused() {
    let mut ssc: u64 = 7;
    assert_eq!(parse_secure_rapdu(&[], &mut ssc, &hex(KS_ENC), &hex(KS_MAC)), Err(SmError::MissingMac));
    assert_eq!(parse_secure_rapdu(&hex("990290 00"), &mut ssc, &hex(KS_ENC), &hex(KS_MAC)), Err(SmError::MissingMac));
    assert_eq!(ssc, 9);
}

#[test]
fn read_plan_for_a_292_byte_file() {
    let head = hex("7782012030");
    let (file_len, plan) = plan_read(0, 0, &head, 0x9000);
    assert_eq!(file_len, 292);
    assert_eq!(plan, ReadPlan::Next(5, 128));
    let chunk = vec![0u8; 128];
    assert_eq!(plan_read(5, 292, &chunk, 0x9000), (292, ReadPlan::Next(133, 128)));
    assert_eq!(plan_read(133, 292, &chunk, 0x9000), (292, ReadPlan::Next(261, 31)));
    assert_eq!(plan_read(261, 292, &vec![0u8; 31], 0x9000), (292, ReadPlan::Complete));
    assert_eq!(plan_read(5, 292, &chunk, 0x6B00), (292, ReadPlan::Refused));
    assert_eq!(plan_read(5, 292, &vec![], 0x9000), (292, ReadPlan::Refused));
    assert_eq!(plan_read(5, 292, &chunk, 0x6110), (292, ReadPlan::Next(133, 0x10)));
}

#[test]
fn response_split_and_answer_steps() {
    assert_eq!(split_response(&vec![1, 2, 0x90, 0x00]), Ok((vec![1, 2], 0x9000)));
    assert_eq!(split_response(&vec![0x90]), Err(passauf::iso7816::ExchangeError::ShortResponse));
    assert_eq!(answer_step(0x6C12, true), AnswerStep::Reissue(0x12));
    assert_eq!(answer_step(0x6A82, true), AnswerStep::Fail(0x6A82));
    assert_eq!(answer_step(0x6A82, false), AnswerStep::Done);
    assert_eq!(answer_step(0x9000, true), AnswerStep::Done);
}
