use vstd::prelude::*;
use vstd::string::StringExecFns;

use crate::model::Endpoint;

verus! {

#[derive(Debug, Clone, PartialEq)]
pub struct InstitutionsSearchRequest {
    pub query: String,
    pub products: Option<Vec<String>>,
    pub country_codes: Vec<String>,
    pub options: Option<SearchInstitutionFilter>,
}

#[derive(Debug, Clone, PartialEq)]
pub struct SearchInstitutionFilter {
    pub oauth: Option<bool>,
    pub include_optional_metadata: Option<bool>,
    pub include_auth_metadata: Option<bool>,
    pub include_payment_initiation_metadata: Option<bool>,
    pub payment_initiation: Option<PaymentInitiationFilter>,
}

#[derive(Debug, Clone, PartialEq)]
pub struct PaymentInitiationFilter {
    pub payment_id: Option<String>,
}

impl Endpoint for InstitutionsSearchRequest {
    type Response = InstitutionSearchResponse;

    open spec fn spec_path(&self) -> Seq<char> {
        "/institutions/search"@
    }

    fn path(&self) -> (p: String) {
        String::from_str("/institutions/search")
    }
}

#[derive(Debug, Clone, PartialEq)]
pub struct InstitutionSearchResponse {
    pub institutions: Vec<Institution>,
}

#[derive(Debug, Clone, PartialEq)]
pub struct InstitutionGetRequest {
    pub institution_id: String,
    pub country_codes: Vec<String>,
    pub options: Option<GetInstitutionFilter>,
}

#[derive(Debug, Clone, PartialEq)]
pub struct GetInstitutionFilter {
    pub include_optional_metadata: Option<bool>,
    pub include_status: Option<bool>,
    pub include_auth_metadata: Option<bool>,
    pub include_payment_initiation_metadata: Option<bool>,
}

impl Endpoint for InstitutionGetRequest {
    type Response = InstitutionGetResponse;

    open spec fn spec_path(&self) -> Seq<char> {
        "/institutions/get_by_id"@
    }

    fn path(&self) -> (p: String) {
        String::from_str("/institutions/get_by_id")
    }
}

#[derive(Debug, Clone, PartialEq)]
pub struct InstitutionGetResponse {
    pub institution: Institution,
}

#[derive(Debug, Clone, PartialEq)]
pub struct InstitutionsGetRequest {
    pub count: usize,
    pub offset: usize,
    pub country_codes: Vec<String>,
    pub options: Option<GetInstitutionsFilter>,
}

#[derive(Debug, Clone, PartialEq)]
pub struct GetInstitutionsFilter {
    /// Filter the Institutions based on which products they support.
    pub products: Vec<String>,
    /// Specify an array of routing numbers to filter institutions. The
    /// response will only return institutions that match all of the routing
    /// numbers in the array.
    pub routing_numbers: Vec<String>,
    pub oauth: bool,
    pub include_optional_metadata: bool,
    /// When true, returns metadata related to the Auth product indicating
    /// which auth methods are supported. Defaults to false.
    pub include_auth_metadata: bool,
    /// When true, returns metadata related to the Payment Initiation product
    /// indicating which payment configurations are supported. Defaults to
    /// false.
    pub include_payment_initiation_metadata: bool,
}

impl Endpoint for InstitutionsGetRequest {
    type Response = InstitutionsGetResponse;

    open spec fn spec_path(&self) -> Seq<char> {
        "/institutions/get"@
    }

    fn path(&self) -> (p: String) {
        String::from_str("/institutions/get")
    }
}

#[derive(Debug, Clone, PartialEq)]
pub struct InstitutionsGetResponse {
    pub institutions: Vec<Institution>,
}

#[derive(Debug, Clone, PartialEq)]
pub struct Institution {
    pub institution_id: String,
    pub name: String,
    pub products: Vec<String>,
    pub country_codes: Vec<String>,
    pub url: Option<String>,
    pub primary_color: Option<String>,
    pub logo: Option<String>,
    pub routing_numbers: Option<Vec<String>>,
    pub oauth: bool,
}

} // verus!
