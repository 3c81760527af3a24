use vstd::prelude::*;
use vstd::string::StringExecFns;

use crate::model::account::Account;
use crate::model::item::Item;
use crate::model::Endpoint;

verus! {

#[derive(Debug, Clone, PartialEq)]
pub struct GetIdentityRequest {
    pub access_token: String,
    pub options: Option<IdentityFilter>,
}

#[derive(Debug, Clone, PartialEq)]
pub struct IdentityFilter {
    pub account_ids: Vec<String>,
}

impl Endpoint for GetIdentityRequest {
    type Response = GetIdentityResponse;

    open spec fn spec_path(&self) -> Seq<char> {
        "/identity/get"@
    }

    fn path(&self) -> (p: String) {
        String::from_str("/identity/get")
    }
}

#[derive(Debug, Clone, PartialEq)]
pub struct GetIdentityResponse {
    pub accounts: Vec<Account>,
    pub item: Item,
    pub request_id: String,
}

} // verus!
