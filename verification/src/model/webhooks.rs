use std::collections::HashMap;

use vstd::prelude::*;
use vstd::string::StringExecFns;

use crate::model::Endpoint;

verus! {

#[derive(Debug, Clone, PartialEq)]
pub struct GetWebhookVerificationKeyRequest {
    pub key_id: String,
}

impl Endpoint for GetWebhookVerificationKeyRequest {
    type Response = GetWebhookVerificationKeyResponse;

    open spec fn spec_path(&self) -> Seq<char> {
        "/webhook_verification_key/get"@
    }

    fn path(&self) -> (p: String) {
        String::from_str("/webhook_verification_key/get")
    }
}

#[derive(Debug, Clone, PartialEq)]
pub struct GetWebhookVerificationKeyResponse {
    /// The fields of the JSON Web Key, each as text.
    pub key: HashMap<String, String>,
    pub request_id: String,
}

} // verus!
