//! The aggregation engine on concrete inputs: grouping by full structural
//! debtor equality, flattening order, the three sums, and the concatenated
//! display columns.

use lecto::{
    group, CustomFields, Date, Debt, DebtStatus, DebtStatusVariable, Debtor, DebtorAddress,
    DebtorAddressResponse, DebtorBasicInformation, DebtorEmail, DebtorPhoneNumber, DebtorResponse,
    Gender, KycDone, Remind, RemindResponse, Segment, Timestamp,
};

fn ts(year: u16, month: u8, day: u8, hour: u8, minute: u8, second: u8) -> Timestamp {
    Timestamp {
        date: Date { year, month, day },
        hour,
        minute,
        second,
        offset_minutes: 540,
    }
}

fn debtor(debtor_id: &str, email: &str) -> Debtor {
    Debtor {
        id: 38553,
        debtor_id: debtor_id.to_owned(),
        basic_information: DebtorBasicInformation {
            name: "test name".to_owned(),
            name_kana: Some("test name kana".to_owned()),
            birth_date: None,
            gender: Gender::Unspecified,
        },
        email: DebtorEmail {
            email: email.to_owned(),
        },
        address: DebtorAddress {
            address: "test address".to_owned(),
            kyc_done: true,
            postal_code: Some("3336666".to_owned()),
        },
        phone_number: DebtorPhoneNumber {
            phone_number: Some("0312345678".to_owned()),
            mobile_number: Some("09012345678".to_owned()),
        },
    }
}

fn debt(debt_id: &str, amount: i64, fee: Option<i64>, custom_fields: CustomFields) -> Debt {
    Debt {
        id: 27801,
        debt_id: debt_id.to_owned(),
        debtor_id: "test external id3".to_owned(),
        dealt_at: ts(2022, 3, 12, 0, 31, 57),
        debt_amount: amount,
        debt_fee: fee,
        debt_delinquency_charge: Some(500),
        repayment_due_at: ts(2022, 3, 17, 0, 0, 0),
        appendix: None,
        custom_fields,
        remind_segments: vec![Segment {
            name: "AAA".to_owned(),
        }],
        partner: None,
        debt_status: DebtStatus {
            id: 10,
            debt_id: debt_id.to_owned(),
            changed_at: ts(2022, 3, 12, 0, 31, 57),
            expire_at: ts(9999, 12, 31, 23, 59, 59),
            status: DebtStatusVariable::Active,
            status_id: "LECTO-01".to_owned(),
        },
    }
}

fn remind(debtor: Debtor, debts: Vec<Debt>) -> Remind {
    Remind {
        label: "label".to_owned(),
        debtor,
        debts,
    }
}

fn fields(pairs: &[(&str, &str)]) -> CustomFields {
    let mut f = CustomFields::new();
    for (k, v) in pairs {
        f.insert((*k).to_owned(), (*v).to_owned());
    }
    f
}

#[test]
fn remind_response_decodes_into_a_remind() {
    let d = debtor("test external id3", "sample@example.com");
    let r = Remind::from(RemindResponse {
        label: "test external id3---2022-03".to_owned(),
        debtor: DebtorResponse {
            id: d.id,
            debtor_id: d.debtor_id.clone(),
            basic_information: d.basic_information.clone(),
            email: d.email.clone(),
            address: DebtorAddressResponse {
                address: d.address.address.clone(),
                kyc_done: KycDone::Done,
                postal_code: d.address.postal_code.clone(),
            },
            phone_number: d.phone_number.clone(),
        },
        debts: vec![debt("id5", 10000, Some(100), fields(&[]))],
    });
    assert_eq!(r.label, "test external id3---2022-03");
    assert!(r.debtor == d);
    assert_eq!(r.debts.len(), 1);
    assert_eq!(r.debts[0].debt_id, "id5");
}

#[test]
fn group_of_empty_input_is_empty() {
    let rows = group(&vec![]);
    assert_eq!(rows.len(), 0);
}

#[test]
fn same_debtor_two_records_one_row_with_summed_amounts() {
    let d = debtor("test external id3", "sample@example.com");
    let r1 = remind(d.clone(), vec![debt("id5", 10000, Some(100), fields(&[]))]);
    let r2 = remind(d.clone(), vec![debt("id6", 10000, None, fields(&[]))]);
    let rows = group(&vec![r1, r2]);
    assert_eq!(rows.len(), 1);
    assert!(rows[0].debtor == d);
    assert_eq!(rows[0].total_debt_amount, 20000);
    assert_eq!(rows[0].total_debt_fee, 100);
}

#[test]
fn concatenated_ids_preserve_flattening_order() {
    let d = debtor("test external id3", "sample@example.com");
    let r1 = remind(
        d.clone(),
        vec![
            debt("A", 1, None, fields(&[])),
            debt("B", 2, None, fields(&[])),
        ],
    );
    let r2 = remind(d.clone(), vec![debt("C", 3, None, fields(&[]))]);
    let rows = group(&vec![r1, r2]);
    assert_eq!(rows.len(), 1);
    assert_eq!(rows[0].debt_id, "A\nB\nC");
    assert_eq!(rows[0].debt_amount, "1\n2\n3");
}

#[test]
fn total_amount_skips_missing_and_non_numeric_fields() {
    let d = debtor("test external id3", "sample@example.com");
    let r = remind(
        d,
        vec![
            debt("a", 1, None, fields(&[("total_amount", "17000")])),
            debt("b", 1, None, fields(&[("item_name", "iPhoneSE 12")])),
            debt("c", 1, None, fields(&[("total_amount", "not a number")])),
        ],
    );
    let rows = group(&vec![r]);
    assert_eq!(rows.len(), 1);
    assert_eq!(rows[0].total_amount, 17000);
}

#[test]
fn distinct_debtors_keep_first_seen_order() {
    let d1 = debtor("first", "first@example.com");
    let d2 = debtor("second", "second@example.com");
    let rows = group(&vec![
        remind(d1.clone(), vec![debt("x", 10, None, fields(&[]))]),
        remind(d2.clone(), vec![debt("y", 20, None, fields(&[]))]),
        remind(d1.clone(), vec![debt("z", 30, None, fields(&[]))]),
    ]);
    assert_eq!(rows.len(), 2);
    assert!(rows[0].debtor == d1);
    assert!(rows[1].debtor == d2);
    assert_eq!(rows[0].total_debt_amount, 40);
    assert_eq!(rows[1].total_debt_amount, 20);
    assert_eq!(rows[0].debt_id, "x\nz");
}

#[test]
fn equal_identifier_but_different_fields_groups_separately() {
    let d1 = debtor("same-id", "one@example.com");
    let d2 = debtor("same-id", "two@example.com");
    let rows = group(&vec![
        remind(d1, vec![debt("x", 10, None, fields(&[]))]),
        remind(d2, vec![debt("y", 20, None, fields(&[]))]),
    ]);
    assert_eq!(rows.len(), 2);
}

#[test]
fn fee_total_is_zero_when_every_fee_is_absent() {
    let d = debtor("test", "t@example.com");
    let rows = group(&vec![remind(
        d,
        vec![
            debt("a", 5, None, fields(&[])),
            debt("b", 6, None, fields(&[])),
        ],
    )]);
    assert_eq!(rows[0].total_debt_fee, 0);
}

#[test]
fn timestamp_columns_use_rfc3339_text() {
    let d = debtor("test", "t@example.com");
    let rows = group(&vec![remind(d, vec![debt("a", 5, None, fields(&[]))])]);
    assert_eq!(rows[0].dealt_at, "2022-03-12T00:31:57+09:00");
    assert_eq!(rows[0].repayment_due_at, "2022-03-17T00:00:00+09:00");
}

#[test]
fn appendix_column_joins_with_divider() {
    let d = debtor("test", "t@example.com");
    let mut first = debt("a", 1, None, fields(&[]));
    first.appendix = Some("first note".to_owned());
    let mut second = debt("b", 2, None, fields(&[]));
    second.appendix = Some("second note".to_owned());
    let rows = group(&vec![remind(d, vec![first, second])]);
    assert_eq!(rows[0].appendix, "first note\n---------\nsecond note");
}

#[test]
fn segments_join_with_commas_per_debt_and_newlines_across_debts() {
    let d = debtor("test", "t@example.com");
    let mut first = debt("a", 1, None, fields(&[]));
    first.remind_segments = vec![
        Segment {
            name: "AAA".to_owned(),
        },
        Segment {
            name: "BBB".to_owned(),
        },
    ];
    let mut second = debt("b", 2, None, fields(&[]));
    second.remind_segments = vec![Segment {
        name: "CCC".to_owned(),
    }];
    let rows = group(&vec![remind(d, vec![first, second])]);
    assert_eq!(rows[0].remind_segments, "AAA,BBB\nCCC");
}

#[test]
fn negative_amounts_format_with_sign() {
    let d = debtor("test", "t@example.com");
    let rows = group(&vec![remind(
        d,
        vec![
            debt("a", -500, None, fields(&[])),
            debt("b", 10000, Some(-5), fields(&[])),
        ],
    )]);
    assert_eq!(rows[0].debt_amount, "-500\n10000");
    assert_eq!(rows[0].total_debt_amount, 9500);
    assert_eq!(rows[0].total_debt_fee, -5);
}
