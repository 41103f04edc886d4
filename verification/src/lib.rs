//! Client-side core for a debt-collection service: a classified error
//! taxonomy, a bounded-retry request executor, request construction for the
//! four resource operations, and a pure aggregation engine that folds remind
//! records into one report row per debtor.

use vstd::prelude::*;

mod client;
mod custom_fields;
mod dates;
mod debt;
mod debt_status;
mod debtor;
mod error;
mod group;
mod remind;
mod retry;
mod text;

pub use client::Client;
pub use custom_fields::{cf_lookup, cf_remove, sorted_by_keys, CustomFields};
pub use dates::{Date, Timestamp};
pub use debt::{Debt, DebtRequest, DebtRequestView, DebtView, Partner, PartnerRequest, Segment};
pub use debt_status::{
    DebtStatus, DebtStatusRequest, DebtStatusRequestView, DebtStatusVariable, DebtStatusView,
};
pub use debtor::{
    opt_str_view, opt_string_clone, opt_string_eq, Debtor, DebtorAddress, DebtorAddressResponse,
    DebtorAddressView, DebtorBasicInformation, DebtorBasicInformationView, DebtorEmail,
    DebtorEmailView, DebtorPhoneNumber, DebtorPhoneNumberView, DebtorRawRequest, DebtorRequest,
    DebtorResponse, DebtorView, Gender, KycDone,
};
pub use error::{classify_spec, handle_response, is_success_status, LectoError, RawResponse};
pub use group::{
    amounts_column, appendix_column, appendix_or_empty, custom_total_or_zero, dealt_at_column,
    debtors_in_order, due_at_column, fee_or_zero, fits_i64, group, group_spec, group_sums_fit,
    ids_column, lemma_group_spec_index, lemma_same_debtor_single_row, partition_debts, records_wf,
    row_of, segments_column, segments_of, sum_amounts, sum_custom_totals, sum_fees, sums_fit,
    ReportRow, ReportRowView,
};
pub use remind::{Remind, RemindResponse, RemindView};
pub use retry::{
    effective_attempts, execute_script, final_attempt_index, lemma_exhausts_attempts,
    lemma_retries_until_first_response, lemma_single_attempt_no_retry, retry_step, script_result,
    RetryDecision, TransportOutcome, BACKOFF_MS,
};
pub use text::{
    chars_le, dec_str, dec_str_signed, digit_char, i64_to_string, join_url, join_with, joined_url,
    pad2, pad4, parse_i64, parse_i64_spec, str_eq, str_le, strip_trailing_slash, u64_to_string,
};

verus! {

} // verus!
