//! Remind notices: one debtor paired with the debts currently due, as the
//! list-reminds operation returns them.

use vstd::prelude::*;
use vstd::string::*;

use crate::debt::{Debt, DebtView};
use crate::debtor::{Debtor, DebtorAddress, DebtorResponse, DebtorView, KycDone};

verus! {

/// One remind notice: a label, the debtor, and the debts due.
#[derive(Debug, Clone)]
pub struct Remind {
    pub label: String,
    pub debtor: Debtor,
    pub debts: Vec<Debt>,
}

/// Mathematical image of [`Remind`].
pub ghost struct RemindView {
    pub label: Seq<char>,
    pub debtor: DebtorView,
    pub debts: Seq<DebtView>,
}

impl View for Remind {
    type V = RemindView;

    open spec fn view(&self) -> RemindView {
        RemindView { label: self.label@, debtor: self.debtor@, debts: self.debts.deep_view() }
    }
}

impl DeepView for Remind {
    type V = RemindView;

    open spec fn deep_view(&self) -> RemindView {
        self.view()
    }
}

/// A remind notice exactly as the service returns it, debtor still in the
/// wire encoding.
#[derive(Debug, Clone)]
pub struct RemindResponse {
    pub label: String,
    pub debtor: DebtorResponse,
    pub debts: Vec<Debt>,
}

impl From<RemindResponse> for Remind {
    /// Decodes the nested debtor and keeps the label and debts as they are.
    fn from(item: RemindResponse) -> (r: Remind) {
        Remind {
            label: item.label,
            debtor: Debtor::from(item.debtor),
            debts: item.debts,
        }
    }
}

impl vstd::std_specs::convert::FromSpecImpl<RemindResponse> for Remind {
    open spec fn obeys_from_spec() -> bool {
        true
    }

    open spec fn from_spec(item: RemindResponse) -> Remind {
        Remind {
            label: item.label,
            debtor: Debtor {
                id: item.debtor.id,
                debtor_id: item.debtor.debtor_id,
                basic_information: item.debtor.basic_information,
                email: item.debtor.email,
                address: DebtorAddress {
                    address: item.debtor.address.address,
                    kyc_done: item.debtor.address.kyc_done == KycDone::Done,
                    postal_code: item.debtor.address.postal_code,
                },
                phone_number: item.debtor.phone_number,
            },
            debts: item.debts,
        }
    }
}

} // verus!
