use passauf::icao9303::{append_check_digit, calculate_check_digit};
use passauf::mrz::{
    format_mrz_name, parse_dg_date, parse_mrz_date, parse_mrz_document_code, remove_mrz_padding, text_to_numeric, TD1Mrz,
    TD3Mrz, MRZ,
};

const TD1_SHORT: &str =
    "I<UTO1234567897ABCDEFGH<<<<<<<0001029<3001020UTO<<<<<<<<<<<8MUSTERMANN<<ERIKA<<<<<<<<<<<<<";
const TD1_LONG: &str =
    "I<UTO123456789<ABCD3<TEST<<<<<0001029<3001020UTO<<<<<<<<<<<2MUSTERMANN<<ERIKA<<<<<<<<<<<<<";
const TD1_FULL: &str =
    "I<UTO123456789<ABCDABCDABCDAB60001029<3001020UTO<<<<<<<<<<<0MUSTERMANN<<ERIKA<<<<<<<<<<<<<";
const TD3_SPECIMEN: &str =
    "P<UTOERIKSSON<<ANNA<MARIA<<<<<<<<<<<<<<<<<<<L898902C36UTO7408122F1204159ZE184226B<<<<<10";

#[test]
fn td1_short_document_number_parsing() {
    let mrz = &TD1_SHORT.to_string();
    let result = TD1Mrz::deserialize(mrz).unwrap();
    assert_eq!(result.document_number, "123456789");
    assert_eq!(result.document_number_check_digit, '7');
    assert_eq!(result.optional_data_elements_line_1, "ABCDEFGH");
}

#[test]
fn td1_long_document_number_parsing() {
    let mrz = &TD1_LONG.to_string();
    let result = TD1Mrz::deserialize(mrz).unwrap();
    assert_eq!(result.document_number, "123456789ABCD");
    assert_eq!(result.document_number_check_digit, '3');
    assert_eq!(result.optional_data_elements_line_1, "TEST");
}

#[test]
fn td1_full_length_document_number_parsing() {
    let mrz = &TD1_FULL.to_string();
    let result = TD1Mrz::deserialize(mrz).unwrap();
    assert_eq!(result.document_number, "123456789ABCDABCDABCDAB");
    assert_eq!(result.document_number_check_digit, '6');
    assert_eq!(result.optional_data_elements_line_1, "");
}

#[test]
fn td1_mrz_short_document_number_parsing() {
    let mrz = &TD1_SHORT.to_string();
    let result = TD1Mrz::deserialize(mrz).unwrap();
    assert_eq!(result.document_number, "123456789");
    assert_eq!(result.document_number_check_digit, '7');
    assert_eq!(result.optional_data_elements_line_1, "ABCDEFGH");
}

#[test]
fn td1_mrz_long_document_number_parsing() {
    let mrz = &TD1_LONG.to_string();
    let result = TD1Mrz::deserialize(mrz).unwrap();
    assert_eq!(result.document_number, "123456789ABCD");
    assert_eq!(result.document_number_check_digit, '3');
    assert_eq!(result.optional_data_elements_line_1, "TEST");
}

#[test]
fn td1_mrz_full_length_document_number_parsing() {
    let mrz = &TD1_FULL.to_string();
    let result = TD1Mrz::deserialize(mrz).unwrap();
    assert_eq!(result.document_number, "123456789ABCDABCDABCDAB");
    assert_eq!(result.document_number_check_digit, '6');
    assert_eq!(result.optional_data_elements_line_1, "");
}

#[test]
fn td1_short_number_all_fields() {
    let mrz = TD1_SHORT.to_string();
    let r = TD1Mrz::deserialize(&mrz).unwrap();
    assert_eq!(r.raw_mrz, mrz);
    assert_eq!(r.document_code, "I<");
    assert_eq!(r.issuing_state, "UTO");
    assert_eq!(r.date_of_birth, "000102");
    assert_eq!(r.date_of_birth_check_digit, '9');
    assert_eq!(r.sex, '<');
    assert_eq!(r.date_of_expiry, "300102");
    assert_eq!(r.date_of_expiry_check_digit, '0');
    assert_eq!(r.nationality, "UTO");
    assert_eq!(r.optional_data_elements_line_2, "");
    assert_eq!(r.composite_check_digit, '8');
    assert_eq!(r.name_of_holder, "MUSTERMANN  ERIKA");
    assert_eq!(r.validate_check_digits(), vec![true, true, true, true]);
}

#[test]
fn td1_long_number_composite_valid() {
    let r = TD1Mrz::deserialize(&TD1_LONG.to_string()).unwrap();
    let checks = r.validate_check_digits();
    assert_eq!(checks.len(), 4);
    assert!(checks[0]);
    assert!(checks[3]);
}

#[test]
fn td1_round_trip_keeps_raw_text() {
    for text in [TD1_SHORT, TD1_LONG, TD1_FULL] {
        let mrz = text.to_string();
        assert_eq!(TD1Mrz::deserialize(&mrz).unwrap().raw_mrz, mrz);
    }
}

#[test]
fn td1_truncation_marker_without_remainder_is_kept() {
    let mut text = String::from("I<UTO123456789<<ABC");
    while text.len() < 90 {
        text.push('<');
    }
    let r = TD1Mrz::deserialize(&text).unwrap();
    assert_eq!(r.raw_mrz, text);
    assert_eq!(r.document_number, "123456789");
    assert_eq!(r.document_number_check_digit, '<');
    assert_eq!(r.optional_data_elements_line_1, "ABC");
    let mut fillers = String::from("I<UTO123456789<");
    while fillers.len() < 90 {
        fillers.push('<');
    }
    let r = TD1Mrz::deserialize(&fillers).unwrap();
    assert_eq!(r.raw_mrz, fillers);
    assert_eq!(r.optional_data_elements_line_1, "");
}

#[test]
fn td1_wrong_length_is_rejected() {
    assert!(TD1Mrz::deserialize(&TD1_SHORT[..89].to_string()).is_none());
    assert!(MRZ::deserialize(&"P<UTO".to_string()).is_none());
}

#[test]
fn td3_specimen_fields_and_check_digits() {
    let mrz = TD3_SPECIMEN.to_string();
    let r = TD3Mrz::deserialize(&mrz).unwrap();
    assert_eq!(r.raw_mrz, mrz);
    assert_eq!(r.document_code, "P<");
    assert_eq!(r.issuing_state, "UTO");
    assert_eq!(r.name_of_holder, "ERIKSSON  ANNA MARIA");
    assert_eq!(r.document_number, "L898902C3");
    assert_eq!(r.document_number_check_digit, '6');
    assert_eq!(r.nationality, "UTO");
    assert_eq!(r.date_of_birth, "740812");
    assert_eq!(r.date_of_birth_check_digit, '2');
    assert_eq!(r.sex, 'F');
    assert_eq!(r.date_of_expiry, "120415");
    assert_eq!(r.date_of_expiry_check_digit, '9');
    assert_eq!(r.personal_number_or_optional_data_elements, "ZE184226B");
    assert_eq!(r.personal_number_or_optional_data_elements_check_digit, '1');
    assert_eq!(r.composite_check_digit, '0');
    assert_eq!(r.validate_check_digits(), vec![true, true, true, true, true]);
}

#[test]
fn mrz_dispatches_on_length() {
    match MRZ::deserialize(&TD1_SHORT.to_string()) {
        Some(MRZ::TD1(m)) => assert_eq!(m.document_number, "123456789"),
        _ => panic!("expected a TD1 MRZ"),
    }
    match MRZ::deserialize(&TD3_SPECIMEN.to_string()) {
        Some(MRZ::TD3(m)) => assert_eq!(m.document_number, "L898902C3"),
        _ => panic!("expected a TD3 MRZ"),
    }
}

#[test]
fn check_digits_of_icao_example() {
    assert_eq!(calculate_check_digit(&"L898902C".to_string()), '3');
    assert_eq!(calculate_check_digit(&"L898902C<".to_string()), '3');
    assert_eq!(calculate_check_digit(&"690806".to_string()), '1');
    assert_eq!(calculate_check_digit(&"940623".to_string()), '6');
    assert_eq!(calculate_check_digit(&"".to_string()), '0');
    assert_eq!(append_check_digit(&"520727".to_string()), "5207273");
}

#[test]
fn check_digit_depends_on_position() {
    assert_eq!(calculate_check_digit(&"1".to_string()), '7');
    assert_eq!(calculate_check_digit(&"<1".to_string()), '3');
    assert_eq!(calculate_check_digit(&"<<1".to_string()), '1');
    assert_eq!(calculate_check_digit(&"A".to_string()), '0');
    assert_eq!(calculate_check_digit(&"Z".to_string()), '5');
}

#[test]
fn padding_removed_from_end_only() {
    assert_eq!(remove_mrz_padding(&"AB<C<<<".to_string()), "AB<C");
    assert_eq!(remove_mrz_padding(&"<<<".to_string()), "");
    assert_eq!(remove_mrz_padding(&"".to_string()), "");
}

#[test]
fn mrz_check_results_by_size() {
    let td1 = MRZ::deserialize(&TD1_SHORT.to_string()).unwrap();
    assert_eq!(td1.validate_check_digits(), vec![true, true, true, true]);
    let td3 = MRZ::deserialize(&TD3_SPECIMEN.to_string()).unwrap();
    assert_eq!(td3.validate_check_digits(), vec![true, true, true, true, true]);
    let mut broken = TD3_SPECIMEN.to_string();
    broken.replace_range(87..88, "1");
    let td3 = MRZ::deserialize(&broken).unwrap();
    assert_eq!(td3.validate_check_digits(), vec![true, true, true, true, false]);
}

#[test]
fn document_codes() {
    use_code("I<", "UTO", "ID Card");
    use_code("C<", "ITA", "ID Card");
    use_code("C<", "UTO", "ID Card (likely)");
    use_code("ID", "BEL", "ID or Residence Permit Card");
    use_code("ID", "D<<", "ID Card");
    use_code("IP", "UTO", "Passport Card");
    use_code("RT", "UTO", "Residence Permit Card");
    use_code("IB", "PLN", "Residence Permit Card");
    use_code("IB", "UTO", "ID Card (likely)");
    use_code("AC", "UTO", "AC (Disallowed by ICAO 9303, Part 5)");
    use_code("P<", "UTO", "Passport");
    use_code("VX", "UTO", "VX (Disallowed by ICAO 9303, Part 5)");
    use_code("XX", "UTO", "Unknown document XX");
    use_code("P", "UTO", "P");
}

fn use_code(code: &str, country: &str, expected: &str) {
    assert_eq!(parse_mrz_document_code(&code.to_string(), &country.to_string()), expected);
}

#[test]
fn numeric_text_and_dates() {
    assert_eq!(text_to_numeric(&"0912".to_string()), Some(vec![0, 9, 1, 2]));
    assert_eq!(text_to_numeric(&"09A2".to_string()), None);
    assert_eq!(text_to_numeric(&"".to_string()), Some(vec![]));
    assert_eq!(parse_mrz_date(&"740812".to_string()), Some((12, 8, 1974)));
    assert_eq!(parse_mrz_date(&"300102".to_string()), Some((2, 1, 2030)));
    assert_eq!(parse_mrz_date(&"3001020".to_string()), None);
    assert_eq!(parse_mrz_date(&"30<102".to_string()), None);
    assert_eq!(parse_dg_date(&"19640812".to_string()), Some((12, 8, 1964)));
    assert_eq!(parse_dg_date(&"1964081".to_string()), None);
}

#[test]
fn mrz_names() {
    assert_eq!(
        format_mrz_name(&"MUSTERMANN<<ERIKA".to_string()),
        ("ERIKA".to_string(), "MUSTERMANN".to_string())
    );
    assert_eq!(
        format_mrz_name(&"ERIKSSON<<ANNA<MARIA".to_string()),
        ("ANNA MARIA".to_string(), "ERIKSSON".to_string())
    );
    assert_eq!(format_mrz_name(&"MADONNA<X".to_string()), ("MADONNA X".to_string(), "".to_string()));
    assert_eq!(format_mrz_name(&"".to_string()), ("".to_string(), "".to_string()));
}

#[test]
fn raw_text_kept_for_any_characters() {
    let td3: String = "é<Zz09".chars().cycle().take(88).collect();
    assert_eq!(td3.chars().count(), 88);
    assert_eq!(TD3Mrz::deserialize(&td3).unwrap().raw_mrz, td3);
    let td1: String = "ab<Ö9".chars().cycle().take(90).collect();
    let r = TD1Mrz::deserialize(&td1).unwrap();
    assert_eq!(r.raw_mrz, td1);
}
