use vstd::prelude::*;
use vstd::string::StringExecFns;

use crate::model::common::ErrorResponse;
use crate::model::Endpoint;

verus! {

#[derive(Debug, Clone, PartialEq)]
pub struct GetItemRequest {
    pub access_token: String,
}

impl Endpoint for GetItemRequest {
    type Response = GetItemResponse;

    open spec fn spec_path(&self) -> Seq<char> {
        "/item/get"@
    }

    fn path(&self) -> (p: String) {
        String::from_str("/item/get")
    }
}

#[derive(Debug, Clone, PartialEq)]
pub struct GetItemResponse {
    pub item: Item,
    pub status: Option<Status>,
    pub request_id: String,
}

#[derive(Debug, Clone, PartialEq)]
pub struct RemoveItemRequest {
    pub access_token: String,
}

impl Endpoint for RemoveItemRequest {
    type Response = RemoveItemResponse;

    open spec fn spec_path(&self) -> Seq<char> {
        "/item/remove"@
    }

    fn path(&self) -> (p: String) {
        String::from_str("/item/remove")
    }
}

#[derive(Debug, Clone, PartialEq)]
pub struct RemoveItemResponse {
    pub request_id: String,
}

#[derive(Debug, Clone, PartialEq)]
pub struct UpdateItemWebhookRequest {
    pub access_token: String,
    /// The new url to associate with the item.
    pub webhook: String,
}

impl Endpoint for UpdateItemWebhookRequest {
    type Response = UpdateItemWebhookResponse;

    open spec fn spec_path(&self) -> Seq<char> {
        "/item/webhook/update"@
    }

    fn path(&self) -> (p: String) {
        String::from_str("/item/webhook/update")
    }
}

#[derive(Debug, Clone, PartialEq)]
pub struct UpdateItemWebhookResponse {
    pub item: Item,
    pub request_id: String,
}

#[derive(Debug, Clone, PartialEq)]
pub struct Item {
    pub item_id: String,
    pub institution_id: Option<String>,
    pub webhook: Option<String>,
    pub error: Option<ErrorResponse>,
    pub available_products: Vec<String>,
    pub billed_products: Vec<String>,
    /// An RFC 3339 timestamp after which the consent provided by the end user will expire.
    pub consent_expiration_time: Option<String>,
    pub update_type: String,
    pub status: Option<Status>,
}

#[derive(Debug, Clone, PartialEq)]
pub struct Status {
    pub investments: Option<StatusMessage>,
    pub transactions: Option<StatusMessage>,
    pub last_webhook: Option<WebhookStatus>,
}

#[derive(Debug, Clone, PartialEq)]
pub struct StatusMessage {
    pub last_successful_update: Option<String>,
    pub last_failed_update: Option<String>,
}

#[derive(Debug, Clone, PartialEq)]
pub struct WebhookStatus {
    pub sent_at: Option<String>,
    pub code_sent: Option<String>,
}

} // verus!
