use vstd::prelude::*;
use vstd::string::StringExecFns;

use crate::model::Endpoint;

verus! {

#[derive(Debug, Clone, PartialEq)]
pub struct ExchangePublicTokenRequest {
    pub public_token: String,
}

impl Endpoint for ExchangePublicTokenRequest {
    type Response = ExchangePublicTokenResponse;

    open spec fn spec_path(&self) -> Seq<char> {
        "/item/public_token/exchange"@
    }

    fn path(&self) -> (p: String) {
        String::from_str("/item/public_token/exchange")
    }
}

#[derive(Debug, Clone, PartialEq)]
pub struct ExchangePublicTokenResponse {
    pub access_token: String,
    pub item_id: String,
    pub request_id: String,
}

#[derive(Debug, Clone, PartialEq, Default)]
pub struct CreateLinkTokenRequest {
    pub client_name: String,
    pub language: String,
    pub country_codes: Vec<String>,
    pub user: LinkUser,
    pub products: Vec<String>,
    pub webhook: Option<String>,
    pub access_token: Option<String>,
    pub link_customization_name: Option<String>,
    pub redirect_uri: Option<String>,
    pub android_package_name: Option<String>,
    pub account_filters: Option<AccountFilters>,
    pub eu_config: Option<EUConfig>,
    pub payment_initiation: Option<PaymentInitiation>,
    pub deposit_switch: Option<DepositSwitchOptions>,
    pub income_verification: Option<IncomeVerification>,
    pub auth: Option<LinkAuth>,
    pub institution_id: Option<String>,
}

impl Endpoint for CreateLinkTokenRequest {
    type Response = CreateLinkTokenResponse;

    open spec fn spec_path(&self) -> Seq<char> {
        "/link/token/create"@
    }

    fn path(&self) -> (p: String) {
        String::from_str("/link/token/create")
    }
}

#[derive(Debug, Clone, PartialEq, Default)]
pub struct LinkAuth {
    pub flow_type: String,
}

#[derive(Debug, Clone, PartialEq, Default)]
pub struct IncomeVerification {
    pub income_verification_id: String,
    pub asset_report_id: Option<String>,
}

#[derive(Debug, Clone, PartialEq, Default)]
pub struct DepositSwitchOptions {
    pub deposit_switch_id: String,
}

#[derive(Debug, Clone, PartialEq, Default)]
pub struct PaymentInitiation {
    pub payment_id: String,
}

#[derive(Debug, Clone, PartialEq, Default)]
pub struct LinkUser {
    pub client_user_id: String,
    pub legal_name: Option<String>,
    pub phone_number: Option<String>,
    pub phone_number_verified_time: Option<String>,
    pub email_address: Option<String>,
    pub email_address_verified_time: Option<String>,
    pub ssn: Option<String>,
    pub date_of_birth: Option<String>,
}

#[derive(Debug, Clone, PartialEq, Default)]
pub struct AccountFilters {
    pub depository: Option<AccountFilter>,
    pub credit: Option<AccountFilter>,
    pub loan: Option<AccountFilter>,
    pub investment: Option<AccountFilter>,
}

#[derive(Debug, Clone, PartialEq, Default)]
pub struct EUConfig {
    pub headless: Option<bool>,
}

#[derive(Debug, Clone, PartialEq, Default)]
pub struct AccountFilter {
    pub account_subtypes: Vec<String>,
}

impl LinkUser {
    /// The user known by `user_id` alone: every other field is absent.
    pub fn new(user_id: String) -> (user: Self)
        ensures
            user.client_user_id == user_id,
            user.legal_name is None,
            user.phone_number is None,
            user.phone_number_verified_time is None,
            user.email_address is None,
            user.email_address_verified_time is None,
            user.ssn is None,
            user.date_of_birth is None,
    {
        LinkUser {
            client_user_id: user_id,
            legal_name: None,
            phone_number: None,
            phone_number_verified_time: None,
            email_address: None,
            email_address_verified_time: None,
            ssn: None,
            date_of_birth: None,
        }
    }
}

#[derive(Debug, Clone, PartialEq)]
pub struct CreateLinkTokenResponse {
    pub link_token: String,
    pub expiration: String,
    pub request_id: String,
}

#[derive(Debug, Clone, PartialEq)]
pub struct GetLinkTokenRequest {
    pub link_token: String,
}

impl Endpoint for GetLinkTokenRequest {
    type Response = GetLinkTokenResponse;

    open spec fn spec_path(&self) -> Seq<char> {
        "/link/token/get"@
    }

    fn path(&self) -> (p: String) {
        String::from_str("/link/token/get")
    }
}

#[derive(Debug, Clone, PartialEq)]
pub struct GetLinkTokenResponse {
    pub link_token: String,
    pub expiration: Option<String>,
    pub created_at: Option<String>,
    pub request_id: String,
}

#[derive(Debug, Clone, PartialEq)]
pub struct InvalidateAccessTokenRequest {
    pub access_token: String,
}

impl Endpoint for InvalidateAccessTokenRequest {
    type Response = InvalidateAccessTokenResponse;

    open spec fn spec_path(&self) -> Seq<char> {
        "/item/access_token/invalidate"@
    }

    fn path(&self) -> (p: String) {
        String::from_str("/item/access_token/invalidate")
    }
}

#[derive(Debug, Clone, PartialEq)]
pub struct InvalidateAccessTokenResponse {
    pub new_access_token: String,
    pub request_id: String,
}

} // verus!
