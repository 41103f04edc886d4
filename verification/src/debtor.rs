//! Debtor records: the wire shapes for creating a debtor and the shapes the
//! service returns, with the conversions between them.
//!
//! Two `Debtor` values are equal exactly when every field matches — full
//! structural equality, not identifier equality. The aggregation engine
//! groups by this equality, so it is stated as the meaning of `==` here.

use vstd::prelude::*;
use vstd::string::*;

use crate::dates::Date;

verus! {

/// A debtor's gender as the service encodes it; `Unspecified` is the wire's
/// "none".
#[derive(Debug, Clone, Copy, PartialEq, Eq, Structural, Hash)]
pub enum Gender {
    Unspecified,
    Male,
    Female,
    Other,
}

impl Default for Gender {
    /// The service's default when no gender is supplied.
    fn default() -> (r: Gender)
        ensures
            r == Gender::Unspecified,
    {
        Gender::Unspecified
    }
}

/// Whether know-your-customer screening is done, as the service encodes it
/// (an integer on the wire, where `Done` is one and `NotDone` is zero).
#[derive(Debug, Clone, Copy, PartialEq, Eq, Structural, Hash)]
pub enum KycDone {
    Done,
    NotDone,
}

impl Default for KycDone {
    fn default() -> (r: KycDone)
        ensures
            r == KycDone::NotDone,
    {
        KycDone::NotDone
    }
}

/// A debtor's email contact.
#[derive(Debug)]
pub struct DebtorEmail {
    pub email: String,
}

/// Mathematical image of [`DebtorEmail`].
pub ghost struct DebtorEmailView {
    pub email: Seq<char>,
}

impl View for DebtorEmail {
    type V = DebtorEmailView;

    open spec fn view(&self) -> DebtorEmailView {
        DebtorEmailView { email: self.email@ }
    }
}

impl DeepView for DebtorEmail {
    type V = DebtorEmailView;

    open spec fn deep_view(&self) -> DebtorEmailView {
        self.view()
    }
}

impl Clone for DebtorEmail {
    fn clone(&self) -> (r: DebtorEmail)
        ensures
            r == *self,
    {
        DebtorEmail { email: self.email.clone() }
    }
}

impl PartialEq for DebtorEmail {
    fn eq(&self, other: &DebtorEmail) -> (r: bool) {
        self.email == other.email
    }
}

impl vstd::std_specs::cmp::PartialEqSpecImpl for DebtorEmail {
    open spec fn obeys_eq_spec() -> bool {
        true
    }

    open spec fn eq_spec(&self, other: &DebtorEmail) -> bool {
        self@ == other@
    }
}

/// A debtor's postal address, with the screening flag as a plain `bool`.
#[derive(Debug)]
pub struct DebtorAddress {
    pub address: String,
    pub kyc_done: bool,
    pub postal_code: Option<String>,
}

/// Mathematical image of [`DebtorAddress`].
pub ghost struct DebtorAddressView {
    pub address: Seq<char>,
    pub kyc_done: bool,
    pub postal_code: Option<Seq<char>>,
}

impl View for DebtorAddress {
    type V = DebtorAddressView;

    open spec fn view(&self) -> DebtorAddressView {
        DebtorAddressView {
            address: self.address@,
            kyc_done: self.kyc_done,
            postal_code: opt_str_view(&self.postal_code),
        }
    }
}

impl DeepView for DebtorAddress {
    type V = DebtorAddressView;

    open spec fn deep_view(&self) -> DebtorAddressView {
        self.view()
    }
}

impl Clone for DebtorAddress {
    fn clone(&self) -> (r: DebtorAddress)
        ensures
            r == *self,
    {
        DebtorAddress {
            address: self.address.clone(),
            kyc_done: self.kyc_done,
            postal_code: opt_string_clone(&self.postal_code),
        }
    }
}

impl PartialEq for DebtorAddress {
    fn eq(&self, other: &DebtorAddress) -> (r: bool) {
        self.address == other.address && self.kyc_done == other.kyc_done && opt_string_eq(
            &self.postal_code,
            &other.postal_code,
        )
    }
}

impl vstd::std_specs::cmp::PartialEqSpecImpl for DebtorAddress {
    open spec fn obeys_eq_spec() -> bool {
        true
    }

    open spec fn eq_spec(&self, other: &DebtorAddress) -> bool {
        self@ == other@
    }
}

/// A debtor's phone contacts.
#[derive(Debug)]
pub struct DebtorPhoneNumber {
    pub phone_number: Option<String>,
    pub mobile_number: Option<String>,
}

/// Mathematical image of [`DebtorPhoneNumber`].
pub ghost struct DebtorPhoneNumberView {
    pub phone_number: Option<Seq<char>>,
    pub mobile_number: Option<Seq<char>>,
}

impl View for DebtorPhoneNumber {
    type V = DebtorPhoneNumberView;

    open spec fn view(&self) -> DebtorPhoneNumberView {
        DebtorPhoneNumberView {
            phone_number: opt_str_view(&self.phone_number),
            mobile_number: opt_str_view(&self.mobile_number),
        }
    }
}

impl DeepView for DebtorPhoneNumber {
    type V = DebtorPhoneNumberView;

    open spec fn deep_view(&self) -> DebtorPhoneNumberView {
        self.view()
    }
}

impl Clone for DebtorPhoneNumber {
    fn clone(&self) -> (r: DebtorPhoneNumber)
        ensures
            r == *self,
    {
        DebtorPhoneNumber {
            phone_number: opt_string_clone(&self.phone_number),
            mobile_number: opt_string_clone(&self.mobile_number),
        }
    }
}

impl PartialEq for DebtorPhoneNumber {
    fn eq(&self, other: &DebtorPhoneNumber) -> (r: bool) {
        opt_string_eq(&self.phone_number, &other.phone_number) && opt_string_eq(
            &self.mobile_number,
            &other.mobile_number,
        )
    }
}

impl vstd::std_specs::cmp::PartialEqSpecImpl for DebtorPhoneNumber {
    open spec fn obeys_eq_spec() -> bool {
        true
    }

    open spec fn eq_spec(&self, other: &DebtorPhoneNumber) -> bool {
        self@ == other@
    }
}

/// A debtor's personal details.
#[derive(Debug)]
pub struct DebtorBasicInformation {
    pub name: String,
    pub name_kana: Option<String>,
    pub birth_date: Option<Date>,
    pub gender: Gender,
}

/// Mathematical image of [`DebtorBasicInformation`].
pub ghost struct DebtorBasicInformationView {
    pub name: Seq<char>,
    pub name_kana: Option<Seq<char>>,
    pub birth_date: Option<Date>,
    pub gender: Gender,
}

impl View for DebtorBasicInformation {
    type V = DebtorBasicInformationView;

    open spec fn view(&self) -> DebtorBasicInformationView {
        DebtorBasicInformationView {
            name: self.name@,
            name_kana: opt_str_view(&self.name_kana),
            birth_date: self.birth_date,
            gender: self.gender,
        }
    }
}

impl DeepView for DebtorBasicInformation {
    type V = DebtorBasicInformationView;

    open spec fn deep_view(&self) -> DebtorBasicInformationView {
        self.view()
    }
}

impl Clone for DebtorBasicInformation {
    fn clone(&self) -> (r: DebtorBasicInformation)
        ensures
            r == *self,
    {
        DebtorBasicInformation {
            name: self.name.clone(),
            name_kana: opt_string_clone(&self.name_kana),
            birth_date: self.birth_date,
            gender: self.gender,
        }
    }
}

impl PartialEq for DebtorBasicInformation {
    fn eq(&self, other: &DebtorBasicInformation) -> (r: bool) {
        self.name == other.name && opt_string_eq(&self.name_kana, &other.name_kana) && (match (
            &self.birth_date,
            &other.birth_date,
        ) {
            (Some(a), Some(b)) => *a == *b,
            (None, None) => true,
            _ => false,
        }) && self.gender == other.gender
    }
}

impl vstd::std_specs::cmp::PartialEqSpecImpl for DebtorBasicInformation {
    open spec fn obeys_eq_spec() -> bool {
        true
    }

    open spec fn eq_spec(&self, other: &DebtorBasicInformation) -> bool {
        self@ == other@
    }
}

/// A debtor as the service returns it, with the screening flag as a `bool`.
/// The aggregation engine uses full structural equality of this type as its
/// grouping key.
#[derive(Debug)]
pub struct Debtor {
    pub id: u64,
    pub debtor_id: String,
    pub basic_information: DebtorBasicInformation,
    pub email: DebtorEmail,
    pub address: DebtorAddress,
    pub phone_number: DebtorPhoneNumber,
}

/// Mathematical image of [`Debtor`].
pub ghost struct DebtorView {
    pub id: u64,
    pub debtor_id: Seq<char>,
    pub basic_information: DebtorBasicInformationView,
    pub email: DebtorEmailView,
    pub address: DebtorAddressView,
    pub phone_number: DebtorPhoneNumberView,
}

impl View for Debtor {
    type V = DebtorView;

    open spec fn view(&self) -> DebtorView {
        DebtorView {
            id: self.id,
            debtor_id: self.debtor_id@,
            basic_information: self.basic_information@,
            email: self.email@,
            address: self.address@,
            phone_number: self.phone_number@,
        }
    }
}

impl DeepView for Debtor {
    type V = DebtorView;

    open spec fn deep_view(&self) -> DebtorView {
        self.view()
    }
}

impl Clone for Debtor {
    fn clone(&self) -> (r: Debtor)
        ensures
            r == *self,
    {
        Debtor {
            id: self.id,
            debtor_id: self.debtor_id.clone(),
            basic_information: self.basic_information.clone(),
            email: self.email.clone(),
            address: self.address.clone(),
            phone_number: self.phone_number.clone(),
        }
    }
}

impl PartialEq for Debtor {
    fn eq(&self, other: &Debtor) -> (r: bool) {
        self.id == other.id && self.debtor_id == other.debtor_id && self.basic_information
            == other.basic_information && self.email == other.email && self.address == other.address
            && self.phone_number == other.phone_number
    }
}

impl vstd::std_specs::cmp::PartialEqSpecImpl for Debtor {
    open spec fn obeys_eq_spec() -> bool {
        true
    }

    open spec fn eq_spec(&self, other: &Debtor) -> bool {
        self@ == other@
    }
}

/// The payload for creating a debtor, as callers supply it: the screening
/// flag is a plain `bool` and absent strings are empty.
#[derive(Debug, Clone)]
pub struct DebtorRequest {
    pub debtor_id: String,
    pub name: String,
    pub name_kana: String,
    pub birth_date: Option<Date>,
    pub gender: Gender,
    pub email: String,
    pub address: String,
    pub kyc_done: bool,
    pub postal_code: String,
    pub phone_number: String,
    pub mobile_number: String,
}

/// The same payload with the screening flag in the service's integer
/// encoding; this is what actually goes on the wire.
#[derive(Debug, Clone)]
pub struct DebtorRawRequest {
    pub debtor_id: String,
    pub name: String,
    pub name_kana: String,
    pub birth_date: Option<Date>,
    pub gender: Gender,
    pub email: String,
    pub address: String,
    pub kyc_done: KycDone,
    pub postal_code: String,
    pub phone_number: String,
    pub mobile_number: String,
}

impl From<DebtorRequest> for DebtorRawRequest {
    /// Re-encodes the boolean screening flag as the wire's integer form and
    /// keeps every other field as it is.
    fn from(item: DebtorRequest) -> (r: DebtorRawRequest) {
        DebtorRawRequest {
            debtor_id: item.debtor_id,
            name: item.name,
            name_kana: item.name_kana,
            birth_date: item.birth_date,
            gender: item.gender,
            email: item.email,
            address: item.address,
            kyc_done: if item.kyc_done {
                KycDone::Done
            } else {
                KycDone::NotDone
            },
            postal_code: item.postal_code,
            phone_number: item.phone_number,
            mobile_number: item.mobile_number,
        }
    }
}

impl vstd::std_specs::convert::FromSpecImpl<DebtorRequest> for DebtorRawRequest {
    open spec fn obeys_from_spec() -> bool {
        true
    }

    open spec fn from_spec(item: DebtorRequest) -> DebtorRawRequest {
        DebtorRawRequest {
            debtor_id: item.debtor_id,
            name: item.name,
            name_kana: item.name_kana,
            birth_date: item.birth_date,
            gender: item.gender,
            email: item.email,
            address: item.address,
            kyc_done: if item.kyc_done {
                KycDone::Done
            } else {
                KycDone::NotDone
            },
            postal_code: item.postal_code,
            phone_number: item.phone_number,
            mobile_number: item.mobile_number,
        }
    }
}

/// A debtor's address as the service returns it, screening flag still in the
/// wire's integer encoding.
#[derive(Debug, Clone)]
pub struct DebtorAddressResponse {
    pub address: String,
    pub kyc_done: KycDone,
    pub postal_code: Option<String>,
}

impl From<DebtorAddressResponse> for DebtorAddress {
    /// Decodes the wire's integer screening flag into a `bool` and keeps the
    /// other fields as they are.
    fn from(item: DebtorAddressResponse) -> (r: DebtorAddress) {
        DebtorAddress {
            address: item.address,
            kyc_done: item.kyc_done == KycDone::Done,
            postal_code: item.postal_code,
        }
    }
}

impl vstd::std_specs::convert::FromSpecImpl<DebtorAddressResponse> for DebtorAddress {
    open spec fn obeys_from_spec() -> bool {
        true
    }

    open spec fn from_spec(item: DebtorAddressResponse) -> DebtorAddress {
        DebtorAddress {
            address: item.address,
            kyc_done: item.kyc_done == KycDone::Done,
            postal_code: item.postal_code,
        }
    }
}

/// A debtor exactly as the service returns it.
#[derive(Debug, Clone)]
pub struct DebtorResponse {
    pub id: u64,
    pub debtor_id: String,
    pub basic_information: DebtorBasicInformation,
    pub email: DebtorEmail,
    pub address: DebtorAddressResponse,
    pub phone_number: DebtorPhoneNumber,
}

impl From<DebtorResponse> for Debtor {
    /// Decodes the nested address and keeps every other field as it is.
    fn from(item: DebtorResponse) -> (r: Debtor) {
        Debtor {
            id: item.id,
            debtor_id: item.debtor_id,
            basic_information: item.basic_information,
            email: item.email,
            address: DebtorAddress::from(item.address),
            phone_number: item.phone_number,
        }
    }
}

impl vstd::std_specs::convert::FromSpecImpl<DebtorResponse> for Debtor {
    open spec fn obeys_from_spec() -> bool {
        true
    }

    open spec fn from_spec(item: DebtorResponse) -> Debtor {
        Debtor {
            id: item.id,
            debtor_id: item.debtor_id,
            basic_information: item.basic_information,
            email: item.email,
            address: DebtorAddress {
                address: item.address.address,
                kyc_done: item.address.kyc_done == KycDone::Done,
                postal_code: item.address.postal_code,
            },
            phone_number: item.phone_number,
        }
    }
}

/// View of an optional string: the characters, where one is present.
pub open spec fn opt_str_view(o: &Option<String>) -> Option<Seq<char>> {
    match o {
        Some(s) => Some(s@),
        None => None,
    }
}

/// Clones an optional string.
pub fn opt_string_clone(o: &Option<String>) -> (r: Option<String>)
    ensures
        r == *o,
{
    match o {
        Some(s) => Some(s.clone()),
        None => None,
    }
}

/// Compares two optional strings by their text.
pub fn opt_string_eq(a: &Option<String>, b: &Option<String>) -> (r: bool)
    ensures
        r == (opt_str_view(a) == opt_str_view(b)),
{
    match (a, b) {
        (Some(x), Some(y)) => *x == *y,
        (None, None) => true,
        _ => false,
    }
}

} // verus!
