use vstd::prelude::*;
use vstd::string::StringExecFns;

use crate::model::account::Account;
use crate::model::item::Item;
use crate::model::Endpoint;

verus! {

#[derive(Debug, Clone, PartialEq)]
pub struct AccountBalancesGetRequest {
    pub access_token: String,
    pub options: Option<AccountBalanceFilter>,
}

#[derive(Debug, Clone, PartialEq)]
pub struct AccountBalanceFilter {
    pub account_ids: Vec<String>,
    pub min_last_updated_datetime: Option<String>,
}

impl Endpoint for AccountBalancesGetRequest {
    type Response = AccountBalancesGetResponse;

    open spec fn spec_path(&self) -> Seq<char> {
        "/accounts/balance/get"@
    }

    fn path(&self) -> (p: String) {
        String::from_str("/accounts/balance/get")
    }
}

#[derive(Debug, Clone, PartialEq)]
pub struct AccountBalancesGetResponse {
    pub accounts: Vec<Account>,
    pub item: Item,
    pub request_id: String,
}

} // verus!
