//! Debt records: the wire shape for creating a debt and the shape the
//! service returns, with the partner and remind-segment details they carry.

use vstd::prelude::*;
use vstd::string::*;

use crate::custom_fields::CustomFields;
use crate::dates::Timestamp;
use crate::debt_status::{DebtStatus, DebtStatusRequest, DebtStatusRequestView, DebtStatusView};
use crate::debtor::opt_str_view;

verus! {

/// A named remind segment a debt belongs to.
#[derive(Debug, Clone)]
pub struct Segment {
    pub name: String,
}

impl View for Segment {
    type V = Seq<char>;

    open spec fn view(&self) -> Seq<char> {
        self.name@
    }
}

impl DeepView for Segment {
    type V = Seq<char>;

    open spec fn deep_view(&self) -> Seq<char> {
        self.view()
    }
}

/// The partner a debt was contracted with, as the service returns it.
#[derive(Debug, Clone)]
pub struct Partner {
    pub id: String,
    pub name: String,
}

/// Mathematical image of [`Partner`].
pub ghost struct PartnerView {
    pub id: Seq<char>,
    pub name: Seq<char>,
}

impl View for Partner {
    type V = PartnerView;

    open spec fn view(&self) -> PartnerView {
        PartnerView { id: self.id@, name: self.name@ }
    }
}

impl DeepView for Partner {
    type V = PartnerView;

    open spec fn deep_view(&self) -> PartnerView {
        self.view()
    }
}

/// The partner details supplied when creating a debt.
#[derive(Debug, Clone)]
pub struct PartnerRequest {
    pub id: String,
    pub name: Option<String>,
}

/// Mathematical image of [`PartnerRequest`].
pub ghost struct PartnerRequestView {
    pub id: Seq<char>,
    pub name: Option<Seq<char>>,
}

impl View for PartnerRequest {
    type V = PartnerRequestView;

    open spec fn view(&self) -> PartnerRequestView {
        PartnerRequestView { id: self.id@, name: opt_str_view(&self.name) }
    }
}

impl DeepView for PartnerRequest {
    type V = PartnerRequestView;

    open spec fn deep_view(&self) -> PartnerRequestView {
        self.view()
    }
}

/// A debt as the service returns it: one owed amount tied to a debtor, with
/// its fee, due date, free-form custom fields, and remind segments.
#[derive(Debug, Clone)]
pub struct Debt {
    pub id: u64,
    pub debt_id: String,
    pub debtor_id: String,
    pub dealt_at: Timestamp,
    pub debt_amount: i64,
    pub debt_fee: Option<i64>,
    pub debt_delinquency_charge: Option<i64>,
    pub repayment_due_at: Timestamp,
    pub appendix: Option<String>,
    pub custom_fields: CustomFields,
    pub remind_segments: Vec<Segment>,
    pub partner: Option<Partner>,
    pub debt_status: DebtStatus,
}

/// Mathematical image of [`Debt`].
pub ghost struct DebtView {
    pub id: u64,
    pub debt_id: Seq<char>,
    pub debtor_id: Seq<char>,
    pub dealt_at: Timestamp,
    pub debt_amount: i64,
    pub debt_fee: Option<i64>,
    pub debt_delinquency_charge: Option<i64>,
    pub repayment_due_at: Timestamp,
    pub appendix: Option<Seq<char>>,
    pub custom_fields: Seq<(Seq<char>, Seq<char>)>,
    pub remind_segments: Seq<Seq<char>>,
    pub partner: Option<PartnerView>,
    pub debt_status: DebtStatusView,
}

impl View for Debt {
    type V = DebtView;

    open spec fn view(&self) -> DebtView {
        DebtView {
            id: self.id,
            debt_id: self.debt_id@,
            debtor_id: self.debtor_id@,
            dealt_at: self.dealt_at,
            debt_amount: self.debt_amount,
            debt_fee: self.debt_fee,
            debt_delinquency_charge: self.debt_delinquency_charge,
            repayment_due_at: self.repayment_due_at,
            appendix: opt_str_view(&self.appendix),
            custom_fields: self.custom_fields@,
            remind_segments: self.remind_segments.deep_view(),
            partner: match &self.partner {
                Some(p) => Some(p@),
                None => None,
            },
            debt_status: self.debt_status@,
        }
    }
}

impl DeepView for Debt {
    type V = DebtView;

    open spec fn deep_view(&self) -> DebtView {
        self.view()
    }
}

/// The payload for creating a debt.
#[derive(Debug, Clone)]
pub struct DebtRequest {
    pub debt_id: String,
    pub debtor_id: String,
    pub dealt_at: Timestamp,
    pub debt_amount: i64,
    pub debt_fee: Option<i64>,
    pub debt_delinquency_charge: Option<i64>,
    pub repayment_due_at: Timestamp,
    pub appendix: Option<String>,
    pub custom_fields: CustomFields,
    pub remind_segments: Option<Vec<String>>,
    pub partner: Option<PartnerRequest>,
    pub debt_status: Option<DebtStatusRequest>,
}

/// Mathematical image of [`DebtRequest`].
pub ghost struct DebtRequestView {
    pub debt_id: Seq<char>,
    pub debtor_id: Seq<char>,
    pub dealt_at: Timestamp,
    pub debt_amount: i64,
    pub debt_fee: Option<i64>,
    pub debt_delinquency_charge: Option<i64>,
    pub repayment_due_at: Timestamp,
    pub appendix: Option<Seq<char>>,
    pub custom_fields: Seq<(Seq<char>, Seq<char>)>,
    pub remind_segments: Option<Seq<Seq<char>>>,
    pub partner: Option<PartnerRequestView>,
    pub debt_status: Option<DebtStatusRequestView>,
}

impl View for DebtRequest {
    type V = DebtRequestView;

    open spec fn view(&self) -> DebtRequestView {
        DebtRequestView {
            debt_id: self.debt_id@,
            debtor_id: self.debtor_id@,
            dealt_at: self.dealt_at,
            debt_amount: self.debt_amount,
            debt_fee: self.debt_fee,
            debt_delinquency_charge: self.debt_delinquency_charge,
            repayment_due_at: self.repayment_due_at,
            appendix: opt_str_view(&self.appendix),
            custom_fields: self.custom_fields@,
            remind_segments: match &self.remind_segments {
                Some(v) => Some(v.deep_view()),
                None => None,
            },
            partner: match &self.partner {
                Some(p) => Some(p@),
                None => None,
            },
            debt_status: match &self.debt_status {
                Some(s) => Some(s@),
                None => None,
            },
        }
    }
}

impl DeepView for DebtRequest {
    type V = DebtRequestView;

    open spec fn deep_view(&self) -> DebtRequestView {
        self.view()
    }
}

} // verus!
