use rust_decimal::Decimal;
use vstd::prelude::*;
use vstd::string::StringExecFns;

use crate::model::Endpoint;

verus! {

#[derive(Debug, Clone, PartialEq)]
pub struct SearchEmployerRequest {
    pub query: String,
    /// This field must be set to deposit_switch.
    pub products: Vec<String>,
}

impl Endpoint for SearchEmployerRequest {
    type Response = SearchEmployerResponse;

    open spec fn spec_path(&self) -> Seq<char> {
        "/employers/search"@
    }

    fn path(&self) -> (p: String) {
        String::from_str("/employers/search")
    }
}

#[derive(Debug, PartialEq)]
pub struct SearchEmployerResponse {
    pub employers: Vec<Employer>,
    pub request_id: String,
}

#[derive(Debug, PartialEq)]
pub struct Employer {
    pub employer_id: String,
    pub name: String,
    pub address: Option<Address>,
    pub confidence_score: Decimal,
}

#[derive(Debug, Clone, PartialEq)]
pub struct Address {
    pub city: String,
    pub region: Option<String>,
    pub street: String,
    pub postal_code: Option<String>,
    pub country: Option<String>,
}

} // verus!
