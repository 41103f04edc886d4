//! Debt status records: the wire shape for updating a status and the shape
//! the service returns.

use vstd::prelude::*;
use vstd::string::*;

use crate::dates::Timestamp;
use crate::debtor::opt_str_view;

verus! {

/// The lifecycle state of a debt, as the service encodes it.
#[derive(Debug, Clone, Copy, PartialEq, Eq, Structural)]
pub enum DebtStatusVariable {
    Active,
    AutoActivated,
    Repaid,
    DebtCancelled,
    BadDebtFixed,
    Suspended,
}

/// A debt's status as the service returns it.
#[derive(Debug, Clone)]
pub struct DebtStatus {
    pub id: i64,
    pub debt_id: String,
    pub changed_at: Timestamp,
    pub expire_at: Timestamp,
    pub status: DebtStatusVariable,
    pub status_id: String,
}

/// Mathematical image of [`DebtStatus`].
pub ghost struct DebtStatusView {
    pub id: i64,
    pub debt_id: Seq<char>,
    pub changed_at: Timestamp,
    pub expire_at: Timestamp,
    pub status: DebtStatusVariable,
    pub status_id: Seq<char>,
}

impl View for DebtStatus {
    type V = DebtStatusView;

    open spec fn view(&self) -> DebtStatusView {
        DebtStatusView {
            id: self.id,
            debt_id: self.debt_id@,
            changed_at: self.changed_at,
            expire_at: self.expire_at,
            status: self.status,
            status_id: self.status_id@,
        }
    }
}

impl DeepView for DebtStatus {
    type V = DebtStatusView;

    open spec fn deep_view(&self) -> DebtStatusView {
        self.view()
    }
}

/// The payload for updating a debt's status.
#[derive(Debug, Clone)]
pub struct DebtStatusRequest {
    pub debt_id: String,
    pub status_id: Option<String>,
    pub status: Option<DebtStatusVariable>,
    pub changed_at: Timestamp,
    pub expire_at: Timestamp,
}

/// Mathematical image of [`DebtStatusRequest`].
pub ghost struct DebtStatusRequestView {
    pub debt_id: Seq<char>,
    pub status_id: Option<Seq<char>>,
    pub status: Option<DebtStatusVariable>,
    pub changed_at: Timestamp,
    pub expire_at: Timestamp,
}

impl View for DebtStatusRequest {
    type V = DebtStatusRequestView;

    open spec fn view(&self) -> DebtStatusRequestView {
        DebtStatusRequestView {
            debt_id: self.debt_id@,
            status_id: opt_str_view(&self.status_id),
            status: self.status,
            changed_at: self.changed_at,
            expire_at: self.expire_at,
        }
    }
}

impl DeepView for DebtStatusRequest {
    type V = DebtStatusRequestView;

    open spec fn deep_view(&self) -> DebtStatusRequestView {
        self.view()
    }
}

} // verus!
