use vstd::prelude::*;
use vstd::string::StringExecFns;

use crate::model::account::Account;
use crate::model::item::Item;
use crate::model::Endpoint;

verus! {

#[derive(Debug, Clone, PartialEq)]
pub struct GetAuthRequest {
    pub access_token: String,
    pub options: Option<GetAuthRequestOptions>,
}

#[derive(Debug, Clone, PartialEq)]
pub struct GetAuthRequestOptions {
    pub account_ids: Vec<String>,
}

impl Endpoint for GetAuthRequest {
    type Response = GetAuthResponse;

    open spec fn spec_path(&self) -> Seq<char> {
        "/auth/get"@
    }

    fn path(&self) -> (p: String) {
        String::from_str("/auth/get")
    }
}

#[derive(Debug, Clone, PartialEq)]
pub struct GetAuthResponse {
    pub accounts: Vec<Account>,
    pub numbers: AccountNumbers,
    pub item: Item,
    pub request_id: String,
}

#[derive(Debug, Clone, PartialEq)]
pub struct AccountNumbers {
    pub ach: Vec<ACHAccountNumber>,
    pub eft: Vec<EFTAccountNumber>,
    pub international: Vec<InternationalAccountNumber>,
    pub bacs: Vec<BACSAccountNumber>,
}

#[derive(Debug, Clone, PartialEq)]
pub struct ACHAccountNumber {
    pub account_id: String,
    pub account: String,
    pub routing: String,
    pub wire_routing: Option<String>,
}

#[derive(Debug, Clone, PartialEq)]
pub struct EFTAccountNumber {
    pub account_id: String,
    pub account: String,
    pub institution: String,
    pub branch: String,
}

#[derive(Debug, Clone, PartialEq)]
pub struct InternationalAccountNumber {
    pub account_id: String,
    /// The International Bank Account Number (IBAN) for the account.
    pub iban: String,
    /// The Bank Identifier Code (BIC) for the account
    pub bic: String,
}

#[derive(Debug, Clone, PartialEq)]
pub struct BACSAccountNumber {
    pub account_id: String,
    pub account: String,
    pub sort_code: String,
}

} // verus!
