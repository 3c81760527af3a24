use rust_decimal::Decimal;
use vstd::prelude::*;
use vstd::string::StringExecFns;

use crate::model::account::Account;
use crate::model::item::Item;
use crate::model::Endpoint;

verus! {

#[derive(Debug, Clone, PartialEq)]
pub struct GetTransactionsRequest {
    pub access_token: String,
    /// A string date with the format YYYY-MM-DD. Start date is inclusive.
    pub start_date: String,
    /// A string date with the format YYYY-MM-DD. End date is inclusive.
    pub end_date: String,
    pub options: Option<GetTransactionsOptions>,
}

impl Endpoint for GetTransactionsRequest {
    type Response = GetTransactionsResponse;

    open spec fn spec_path(&self) -> Seq<char> {
        "/transactions/get"@
    }

    fn path(&self) -> (p: String) {
        String::from_str("/transactions/get")
    }
}

#[derive(Debug, Clone, PartialEq)]
pub struct GetTransactionsOptions {
    pub account_ids: Option<String>,
    pub count: Option<usize>,
    pub offset: Option<usize>,
    pub include_original_description: Option<String>,
}

#[derive(Debug, PartialEq)]
pub struct GetTransactionsResponse {
    pub accounts: Vec<Account>,
    pub transactions: Vec<Transaction>,
    pub total_transactions: usize,
    pub item: Item,
    pub request_id: String,
}

#[derive(Debug, Clone, PartialEq)]
pub struct RefreshTransactionsRequest {
    pub access_token: String,
}

impl Endpoint for RefreshTransactionsRequest {
    type Response = RefreshTransactionsResponse;

    open spec fn spec_path(&self) -> Seq<char> {
        "/transactions/refresh"@
    }

    fn path(&self) -> (p: String) {
        String::from_str("/transactions/refresh")
    }
}

#[derive(Debug, Clone, PartialEq)]
pub struct RefreshTransactionsResponse {
    pub request_id: String,
}

#[derive(Debug, Clone, Copy, PartialEq, Eq)]
pub struct GetCategoriesRequest {}

impl Endpoint for GetCategoriesRequest {
    type Response = GetCategoriesResponse;

    open spec fn spec_path(&self) -> Seq<char> {
        "/categories/get"@
    }

    fn path(&self) -> (p: String) {
        String::from_str("/categories/get")
    }
}

#[derive(Debug, Clone, PartialEq)]
pub struct GetCategoriesResponse {
    pub categories: Vec<Category>,
    pub request_id: String,
}

#[derive(Debug, Clone, PartialEq)]
pub struct Category {
    pub category_id: String,
    pub group: String,
    pub hierarchy: Vec<String>,
}

#[derive(Debug, PartialEq)]
pub struct Transaction {
    /// DEPRECATED: do not depend on this type, it will be deleted in the future.
    pub transaction_type: String,
    pub pending_transaction_id: Option<String>,
    pub category_id: Option<String>,
    pub category: Option<Vec<String>>,
    pub location: Option<TransactionLocation>,
    pub payment_meta: Option<PaymentMetadata>,
    pub account_owner: Option<String>,
    pub name: String,
    pub original_description: Option<String>,
    pub account_id: String,
    pub amount: Decimal,
    pub iso_currency_code: Option<String>,
    pub unofficial_currency_code: Option<String>,
    pub date: String,
    pub pending: bool,
    pub transaction_id: String,
    pub payment_channel: String,
    pub merchant_name: Option<String>,
    pub authorized_date: Option<String>,
    pub authorized_datetime: Option<String>,
    pub datetime: Option<String>,
    pub check_number: Option<String>,
    pub transaction_code: Option<String>,
}

#[derive(Debug, Clone, PartialEq)]
pub struct TransactionLocation {
    pub address: Option<String>,
    pub city: Option<String>,
    pub region: Option<String>,
    pub postal_code: Option<String>,
    pub country: Option<String>,
    pub lat: Option<Decimal>,
    pub lon: Option<Decimal>,
    pub store_number: Option<String>,
}

#[derive(Debug, Clone, PartialEq)]
pub struct PaymentMetadata {
    pub reference_number: Option<String>,
    pub ppd_id: Option<String>,
    pub payee: Option<String>,
    pub by_order_of: Option<String>,
    pub payer: Option<String>,
    pub payment_method: Option<String>,
    pub payment_processor: Option<String>,
    pub reason: Option<String>,
}

} // verus!
