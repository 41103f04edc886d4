//! The data model: wire conversions, defaults, structural equality, and the
//! custom-field store.

use lecto::{
    CustomFields, Date, Debtor, DebtorAddress, DebtorAddressResponse, DebtorBasicInformation,
    DebtorEmail, DebtorPhoneNumber, DebtorRawRequest, DebtorRequest, DebtorResponse, Gender,
    KycDone,
};

fn sample_request(kyc_done: bool) -> DebtorRequest {
    DebtorRequest {
        debtor_id: "test-external-id".to_owned(),
        name: "name".to_owned(),
        name_kana: "kana".to_owned(),
        birth_date: Some(Date {
            year: 1999,
            month: 1,
            day: 1,
        }),
        gender: Gender::Male,
        email: "sample@example.com".to_owned(),
        address: "address".to_owned(),
        kyc_done,
        postal_code: "3336666".to_owned(),
        phone_number: "0312345678".to_owned(),
        mobile_number: "09012345678".to_owned(),
    }
}

fn sample_debtor(email: &str) -> Debtor {
    Debtor {
        id: 111,
        debtor_id: "DEBTOR_111".to_owned(),
        basic_information: DebtorBasicInformation {
            name: "name".to_owned(),
            name_kana: None,
            birth_date: None,
            gender: Gender::Female,
        },
        email: DebtorEmail {
            email: email.to_owned(),
        },
        address: DebtorAddress {
            address: "addr".to_owned(),
            kyc_done: false,
            postal_code: None,
        },
        phone_number: DebtorPhoneNumber {
            phone_number: None,
            mobile_number: None,
        },
    }
}

#[test]
fn raw_request_encodes_the_screening_flag_as_integer_variant() {
    let raw = DebtorRawRequest::from(sample_request(true));
    assert_eq!(raw.kyc_done, KycDone::Done);
    assert_eq!(raw.debtor_id, "test-external-id");
    assert_eq!(raw.gender, Gender::Male);
    let raw = DebtorRawRequest::from(sample_request(false));
    assert_eq!(raw.kyc_done, KycDone::NotDone);
}

#[test]
fn address_response_decodes_the_screening_flag_to_bool() {
    let a = DebtorAddress::from(DebtorAddressResponse {
        address: "addr".to_owned(),
        kyc_done: KycDone::Done,
        postal_code: Some("3336666".to_owned()),
    });
    assert!(a.kyc_done);
    assert_eq!(a.address, "addr");
    let a = DebtorAddress::from(DebtorAddressResponse {
        address: "addr".to_owned(),
        kyc_done: KycDone::NotDone,
        postal_code: None,
    });
    assert!(!a.kyc_done);
}

#[test]
fn debtor_response_decodes_into_a_debtor() {
    let d = Debtor::from(DebtorResponse {
        id: 38553,
        debtor_id: "test external id3".to_owned(),
        basic_information: DebtorBasicInformation {
            name: "test name".to_owned(),
            name_kana: Some("test name kana".to_owned()),
            birth_date: None,
            gender: Gender::Unspecified,
        },
        email: DebtorEmail {
            email: "sample@example.com".to_owned(),
        },
        address: DebtorAddressResponse {
            address: "somewhere".to_owned(),
            kyc_done: KycDone::Done,
            postal_code: Some("3336666".to_owned()),
        },
        phone_number: DebtorPhoneNumber {
            phone_number: Some("0312345678".to_owned()),
            mobile_number: Some("09012345678".to_owned()),
        },
    });
    assert_eq!(d.id, 38553);
    assert_eq!(d.debtor_id, "test external id3");
    assert!(d.address.kyc_done);
    assert_eq!(d.address.postal_code.as_deref(), Some("3336666"));
}

#[test]
fn defaults_match_the_service_encoding() {
    assert_eq!(Gender::default(), Gender::Unspecified);
    assert_eq!(KycDone::default(), KycDone::NotDone);
}

#[test]
fn debtor_equality_is_full_structural_equality() {
    let a = sample_debtor("one@example.com");
    let b = sample_debtor("one@example.com");
    let c = sample_debtor("two@example.com");
    assert!(a == b);
    assert!(a != c);
    let mut d = sample_debtor("one@example.com");
    d.basic_information.birth_date = Some(Date {
        year: 1999,
        month: 1,
        day: 1,
    });
    assert!(a != d);
}

#[test]
fn sorted_entries_orders_bindings_by_key() {
    let mut f = CustomFields::new();
    f.insert("total_amount".to_owned(), "17000".to_owned());
    f.insert("item_name".to_owned(), "iPhoneSE 12".to_owned());
    f.insert("a".to_owned(), "first".to_owned());
    let sorted = f.sorted_entries();
    assert_eq!(sorted.len(), 3);
    assert_eq!(sorted[0].0, "a");
    assert_eq!(sorted[1].0, "item_name");
    assert_eq!(sorted[2].0, "total_amount");
    assert_eq!(sorted[2].1, "17000");
    // insertion order is untouched
    assert_eq!(f.entries()[0].0, "total_amount");
}

#[test]
fn custom_fields_bind_lookup_and_replace() {
    let mut f = CustomFields::new();
    assert_eq!(f.len(), 0);
    assert!(f.get("total_amount").is_none());
    f.insert("total_amount".to_owned(), "17000".to_owned());
    f.insert("item_name".to_owned(), "iPhoneSE 12".to_owned());
    assert_eq!(f.len(), 2);
    assert_eq!(f.get("total_amount").map(String::as_str), Some("17000"));
    assert_eq!(f.get("item_name").map(String::as_str), Some("iPhoneSE 12"));
    assert!(f.get("missing").is_none());
    f.insert("total_amount".to_owned(), "18000".to_owned());
    assert_eq!(f.len(), 2);
    assert_eq!(f.get("total_amount").map(String::as_str), Some("18000"));
    let entries = f.entries();
    assert_eq!(entries[0].0, "item_name");
    assert_eq!(entries[1].0, "total_amount");
}
