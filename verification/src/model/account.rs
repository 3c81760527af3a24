use rust_decimal::Decimal;
use vstd::prelude::*;
use vstd::string::StringExecFns;

use crate::model::item::Item;
use crate::model::Endpoint;

verus! {

/// `rust_decimal::Decimal`: an exact decimal number. Amounts are carried as
/// they arrive; nothing is computed from them.
#[verifier::external_type_specification]
#[verifier::external_body]
pub struct ExDecimal(Decimal);

#[derive(Debug, Clone, PartialEq)]
pub struct GetAccountsRequest {
    pub access_token: String,
    pub options: Option<GetAccountsRequestFilter>,
}

#[derive(Debug, Clone, PartialEq)]
pub struct GetAccountsRequestFilter {
    pub account_ids: Vec<String>,
}

impl Endpoint for GetAccountsRequest {
    type Response = GetAccountsResponse;

    open spec fn spec_path(&self) -> Seq<char> {
        "/accounts/get"@
    }

    fn path(&self) -> (p: String) {
        String::from_str("/accounts/get")
    }
}

#[derive(Debug, Clone, PartialEq)]
pub struct GetAccountsResponse {
    pub accounts: Vec<Account>,
    pub item: Item,
    pub request_id: String,
}

#[derive(Debug, Clone, PartialEq)]
pub struct Account {
    pub account_id: String,
    pub balances: Balance,
    pub mask: Option<String>,
    pub name: String,
    pub official_name: Option<String>,
    /// One of investment | credit | depository | loan | brokerage | other.
    pub account_type: AccountType,
    pub subtype: Option<String>,
    /// Listed by the service as always present, but left out of the payloads it sends.
    pub verification_status: Option<String>,
}

#[derive(Debug, Clone, Copy, PartialEq, Eq, Structural)]
pub enum AccountType {
    Investment,
    Credit,
    Depository,
    Loan,
    Brokerage,
    Other,
}

/// The amounts of an account, each an exact decimal number.
#[derive(Debug, Clone, PartialEq)]
pub struct Balance {
    pub available: Option<Decimal>,
    pub current: Option<Decimal>,
    pub iso_currency_code: Option<String>,
    pub limit: Option<Decimal>,
    pub unofficial_currency_code: Option<String>,
}

} // verus!
