use epc_qr_code_generator::amount::Amount;
use epc_qr_code_generator::naming::{image_file_name, remove_spaces};
use epc_qr_code_generator::record::{EpcQr, InvalidEpcCode};
use epc_qr_code_generator::remittance::Remittance;
use epc_qr_code_generator::render::{
    format_for_extension, gray_to_qoi, gray_to_rgba, FileFormat, GenerationError,
};

const ACCOUNT: &str = "DE02120300000000202051";

fn base() -> EpcQr {
    EpcQr::new("Jane Doe".to_string(), ACCOUNT.to_string())
}

fn chars(n: usize) -> String {
    "x".repeat(n)
}

struct Flags {
    bic: bool,
    name: bool,
    iban: bool,
    amount: bool,
    purpose: bool,
    remittance: bool,
    info: bool,
}

fn flags(r: &EpcQr) -> Option<Flags> {
    match r.validate() {
        Ok(()) => None,
        Err(InvalidEpcCode::InvalidFieldLength {
            invalid_bic,
            invalid_name,
            invalid_iban,
            invalid_amount,
            invalid_purpose,
            invalid_remittance,
            invalid_info,
        }) => Some(Flags {
            bic: invalid_bic,
            name: invalid_name,
            iban: invalid_iban,
            amount: invalid_amount,
            purpose: invalid_purpose,
            remittance: invalid_remittance,
            info: invalid_info,
        }),
        Err(e) => panic!("unexpected error {e:?}"),
    }
}

fn only(f: Option<Flags>) -> [bool; 7] {
    let f = f.expect("validation should fail");
    [f.bic, f.name, f.iban, f.amount, f.purpose, f.remittance, f.info]
}

#[test]
fn end_to_end_example() {
    let r = base();
    assert_eq!(r.to_string(), "BCD\n002\n1\nSCT\n\nJane Doe\nDE02120300000000202051");
    assert_eq!(
        r.data().unwrap(),
        b"BCD\n002\n1\nSCT\n\nJane Doe\nDE02120300000000202051".to_vec()
    );
}

#[test]
fn no_optional_field_gives_seven_lines() {
    let text = base().to_string();
    assert_eq!(text.split('\n').count(), 7);
    assert!(!text.ends_with('\n'));
}

#[test]
fn info_only_gives_eleven_lines() {
    let text = base().with_info(Some("Thanks".to_string())).to_string();
    let lines: Vec<&str> = text.split('\n').collect();
    assert_eq!(lines.len(), 11);
    assert_eq!(&lines[7..], &["", "", "", "Thanks"]);
}

#[test]
fn each_prefix_of_optional_fields() {
    let amount: Amount = "1.5".parse().unwrap();
    let with_bic = base().with_bic(Some("BANKDEFF".to_string()));
    assert_eq!(
        with_bic.with_amount(Some(amount.clone())).to_string(),
        "BCD\n001\n1\nSCT\nBANKDEFF\nJane Doe\nDE02120300000000202051\nEUR1.5"
    );
    assert_eq!(
        base().with_purpose(Some("GDDS".to_string())).to_string(),
        "BCD\n002\n1\nSCT\n\nJane Doe\nDE02120300000000202051\n\nGDDS"
    );
    assert_eq!(
        base()
            .with_remittance(Some(Remittance::Reference("RF18539007547034".to_string())))
            .to_string(),
        "BCD\n002\n1\nSCT\n\nJane Doe\nDE02120300000000202051\n\n\nRF18539007547034"
    );
    assert_eq!(
        base()
            .with_amount(Some(amount))
            .with_purpose(Some("GDDS".to_string()))
            .with_remittance(Some(Remittance::Text("Invoice 7".to_string())))
            .with_info(Some("Thanks".to_string()))
            .to_string(),
        "BCD\n002\n1\nSCT\n\nJane Doe\nDE02120300000000202051\nEUR1.5\nGDDS\nInvoice 7\nThanks"
    );
}

#[test]
fn bic_bounds() {
    for n in [8, 11] {
        assert!(base().with_bic(Some(chars(n))).validate().is_ok());
    }
    for n in [7, 9, 10, 12] {
        let f = flags(&base().with_bic(Some(chars(n))));
        assert_eq!(only(f), [true, false, false, false, false, false, false]);
    }
}

#[test]
fn name_bounds() {
    for n in [1, 70] {
        assert!(EpcQr::new(chars(n), ACCOUNT.to_string()).validate().is_ok());
    }
    for n in [0, 71] {
        let f = flags(&EpcQr::new(chars(n), ACCOUNT.to_string()));
        assert_eq!(only(f), [false, true, false, false, false, false, false]);
    }
}

#[test]
fn account_bounds() {
    for n in [1, 34] {
        assert!(EpcQr::new("Jane".to_string(), chars(n)).validate().is_ok());
    }
    for n in [0, 35] {
        let f = flags(&EpcQr::new("Jane".to_string(), chars(n)));
        assert_eq!(only(f), [false, false, true, false, false, false, false]);
    }
}

#[test]
fn purpose_bounds() {
    for n in [1, 4] {
        assert!(base().with_purpose(Some(chars(n))).validate().is_ok());
    }
    for n in [0, 5] {
        let f = flags(&base().with_purpose(Some(chars(n))));
        assert_eq!(only(f), [false, false, false, false, true, false, false]);
    }
}

#[test]
fn reference_bounds() {
    for n in [1, 35] {
        let r = base().with_remittance(Some(Remittance::Reference(chars(n))));
        assert!(r.validate().is_ok());
    }
    for n in [0, 36] {
        let f = flags(&base().with_remittance(Some(Remittance::Reference(chars(n)))));
        assert_eq!(only(f), [false, false, false, false, false, true, false]);
    }
}

#[test]
fn text_bounds() {
    for n in [1, 140] {
        let r = base().with_remittance(Some(Remittance::Text(chars(n))));
        assert!(r.validate().is_ok());
    }
    for n in [0, 141] {
        let f = flags(&base().with_remittance(Some(Remittance::Text(chars(n)))));
        assert_eq!(only(f), [false, false, false, false, false, true, false]);
    }
}

#[test]
fn info_bounds() {
    for n in [1, 70] {
        assert!(base().with_info(Some(chars(n))).validate().is_ok());
    }
    for n in [0, 71] {
        let f = flags(&base().with_info(Some(chars(n))));
        assert_eq!(only(f), [false, false, false, false, false, false, true]);
    }
}

#[test]
fn lengths_count_characters_not_bytes() {
    assert!(EpcQr::new("é".repeat(70), ACCOUNT.to_string()).validate().is_ok());
}

#[test]
fn all_flags_reported_together() {
    let r = EpcQr::new(String::new(), chars(35))
        .with_bic(Some(chars(3)))
        .with_purpose(Some(chars(5)))
        .with_info(Some(String::new()));
    assert_eq!(only(flags(&r)), [true, true, true, false, true, false, true]);
    assert!(matches!(r.data(), Err(InvalidEpcCode::InvalidFieldLength { .. })));
}

#[test]
fn multibyte_payload_too_large() {
    let r = EpcQr::new("€".repeat(70), ACCOUNT.to_string())
        .with_remittance(Some(Remittance::Text("€".repeat(140))))
        .with_info(Some("€".repeat(70)));
    assert!(r.validate().is_ok());
    assert!(matches!(r.data(), Err(InvalidEpcCode::TooLargeTotal)));
}

fn long_record(text_len: usize) -> EpcQr {
    EpcQr::new(chars(70), chars(34))
        .with_bic(Some(chars(11)))
        .with_amount(Some("999999999.99".parse().unwrap()))
        .with_purpose(Some(chars(4)))
        .with_remittance(Some(Remittance::Text(chars(text_len))))
        .with_info(Some(chars(70)))
}

#[test]
fn long_ascii_payload_fits() {
    let r = long_record(107);
    let data = r.data().unwrap();
    assert_eq!(data.len(), 331);
    assert_eq!(data, r.to_string().into_bytes());
}

#[test]
fn longest_ascii_fields_exceed_total() {
    assert!(long_record(140).validate().is_ok());
    assert!(matches!(long_record(108).data(), Err(InvalidEpcCode::TooLargeTotal)));
    assert!(matches!(long_record(140).data(), Err(InvalidEpcCode::TooLargeTotal)));
}

#[test]
fn both_remittance_kinds_is_duplicate() {
    let r = Remittance::from_parts(Some("RF18".to_string()), Some("text".to_string()));
    assert!(matches!(r, Err(InvalidEpcCode::DuplicateRemittance)));
}

#[test]
fn one_remittance_kind_is_kept() {
    let r = Remittance::from_parts(Some("RF18".to_string()), None).unwrap().unwrap();
    assert!(matches!(&r, Remittance::Reference(s) if s == "RF18"));
    assert_eq!(r.text(), "RF18");
    let t = Remittance::from_parts(None, Some("note".to_string())).unwrap().unwrap();
    assert!(matches!(&t, Remittance::Text(s) if s == "note"));
    assert_eq!(t.text(), "note");
    assert!(Remittance::from_parts(None, None).unwrap().is_none());
}

#[test]
fn file_names() {
    let rem = Remittance::Text("a/b c\\d".to_string());
    assert_eq!(image_file_name(None, "DE02 1203", None), "epc-DE02_1203-qr-code.png");
    assert_eq!(
        image_file_name(Some("BANKDEFF"), "DE02", Some(&rem)),
        "epc-BANKDEFF-DE02-a_b_c_d-qr-code.png"
    );
    assert_eq!(image_file_name(None, "DE02", Some(&rem)), "epc-DE02-a_b_c_d-qr-code.png");
    assert_eq!(image_file_name(Some("BANKDEFF"), "DE02", None), "epc-BANKDEFF-DE02-qr-code.png");
}

#[test]
fn spaces_are_removed_from_accounts() {
    assert_eq!(remove_spaces(" DE02 1203 0000 "), "DE0212030000");
    assert_eq!(remove_spaces(""), "");
}

#[test]
fn gray_pixels_are_opaque() {
    assert_eq!(gray_to_rgba(&vec![0, 128, 255]), vec![(0, 0, 0, 255), (128, 128, 128, 255), (255, 255, 255, 255)]);
}

#[test]
fn qoi_image_has_header_and_footer() {
    let bytes = gray_to_qoi(2, 1, &vec![0, 255]);
    assert_eq!(&bytes[0..4], b"qoif");
    assert_eq!(&bytes[4..8], &[0, 0, 0, 2]);
    assert_eq!(&bytes[8..12], &[0, 0, 0, 1]);
    assert_eq!(bytes[12], 3);
    assert_eq!(&bytes[bytes.len() - 8..], &[0, 0, 0, 0, 0, 0, 0, 1]);
}

#[test]
fn format_from_extension() {
    assert_eq!(format_for_extension(Some("qoi")), FileFormat::Qoi);
    assert_eq!(format_for_extension(Some("jpg")), FileFormat::Jpeg);
    assert_eq!(format_for_extension(Some("jpeg")), FileFormat::Jpeg);
    assert_eq!(format_for_extension(Some("png")), FileFormat::Png);
    assert_eq!(format_for_extension(Some("qoif")), FileFormat::Png);
    assert_eq!(format_for_extension(Some("xyz")), FileFormat::Png);
    assert_eq!(format_for_extension(None), FileFormat::Png);
}

#[test]
fn qr_code_of_valid_payment() {
    let record = base();
    let symbol = record.qr_code().unwrap();
    let width = symbol.code().width();
    assert!(width >= 21);
    assert_eq!(symbol.dark_modules().len(), width * width);
    let expected: Vec<bool> = qrcode::QrCode::new(record.data().unwrap())
        .unwrap()
        .to_colors()
        .into_iter()
        .map(|c| c == qrcode::Color::Dark)
        .collect();
    assert_eq!(symbol.dark_modules(), &expected);
    let empty: Vec<bool> = qrcode::QrCode::new(Vec::<u8>::new())
        .unwrap()
        .to_colors()
        .into_iter()
        .map(|c| c == qrcode::Color::Dark)
        .collect();
    assert_ne!(symbol.dark_modules(), &empty);
}

#[test]
fn qr_code_of_invalid_payment() {
    assert!(matches!(
        EpcQr::new(String::new(), ACCOUNT.to_string()).qr_code(),
        Err(GenerationError::InvalidEpcCode(InvalidEpcCode::InvalidFieldLength { .. }))
    ));
    let too_large = EpcQr::new("€".repeat(70), ACCOUNT.to_string())
        .with_remittance(Some(Remittance::Text("€".repeat(140))));
    assert!(matches!(
        too_large.qr_code(),
        Err(GenerationError::InvalidEpcCode(InvalidEpcCode::TooLargeTotal))
    ));
}
