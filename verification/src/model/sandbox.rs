use vstd::prelude::*;
use vstd::string::StringExecFns;

use crate::model::Endpoint;

verus! {

#[derive(Debug, Clone, PartialEq, Default)]
pub struct CreatePublicTokenRequest {
    pub institution_id: String,
    pub initial_products: Vec<String>,
    pub options: Option<CreatePublicTokenOptions>,
}

#[derive(Debug, Clone, PartialEq)]
pub struct CreatePublicTokenOptions {
    pub webhook: Option<String>,
    /// Default username is "user_good".
    pub override_username: Option<String>,
    /// Default password is "pass_good".
    pub override_password: Option<String>,
    pub transactions: Option<CreatePublicTokenOptionsTransactions>,
}

#[derive(Debug, Clone, PartialEq)]
pub struct CreatePublicTokenOptionsTransactions {
    pub start_date: Option<String>,
    pub end_date: Option<String>,
}

impl Endpoint for CreatePublicTokenRequest {
    type Response = CreatePublicTokenResponse;

    open spec fn spec_path(&self) -> Seq<char> {
        "/sandbox/public_token/create"@
    }

    fn path(&self) -> (p: String) {
        String::from_str("/sandbox/public_token/create")
    }
}

#[derive(Debug, Clone, PartialEq)]
pub struct CreatePublicTokenResponse {
    pub public_token: String,
}

#[derive(Debug, Clone, PartialEq)]
pub struct ResetLoginRequest {
    pub access_token: String,
}

impl Endpoint for ResetLoginRequest {
    type Response = ResetLoginResponse;

    open spec fn spec_path(&self) -> Seq<char> {
        "/sandbox/item/reset_login"@
    }

    fn path(&self) -> (p: String) {
        String::from_str("/sandbox/item/reset_login")
    }
}

#[derive(Debug, Clone, PartialEq)]
pub struct ResetLoginResponse {
    pub reset_login: bool,
}

#[derive(Debug, Clone, PartialEq)]
pub struct SetVerificationStatusRequest {
    pub access_token: String,
    pub account_id: String,
    /// One of automatically_verified or verification_required
    pub verification_status: String,
}

impl Endpoint for SetVerificationStatusRequest {
    type Response = SetVerificationStatusResponse;

    open spec fn spec_path(&self) -> Seq<char> {
        "/sandbox/item/set_verification_status"@
    }

    fn path(&self) -> (p: String) {
        String::from_str("/sandbox/item/set_verification_status")
    }
}

#[derive(Debug, Clone, PartialEq)]
pub struct SetVerificationStatusResponse {
    pub reset_login: bool,
}

#[derive(Debug, Clone, PartialEq)]
pub struct FireWebhookRequest {
    pub access_token: String,
    /// One of DEFAULT_UPDATE.
    pub webhook_code: WebhookCode,
}

#[derive(Debug, Clone, Copy, PartialEq, Eq, Structural)]
pub enum WebhookCode {
    DefaultUpdate,
}

impl Endpoint for FireWebhookRequest {
    type Response = FireWebhookResponse;

    open spec fn spec_path(&self) -> Seq<char> {
        "/sandbox/item/fire_webhook"@
    }

    fn path(&self) -> (p: String) {
        String::from_str("/sandbox/item/fire_webhook")
    }
}

#[derive(Debug, Clone, PartialEq)]
pub struct FireWebhookResponse {
    pub webhook_fired: bool,
    pub request_id: String,
}

} // verus!
