use vstd::prelude::*;

mod account;
mod auth;
mod balance;
mod common;
mod employers;
mod identity;
mod institutions;
mod item;
mod sandbox;
mod token;
mod transactions;
mod webhooks;

pub use account::{
    GetAccountsRequest, GetAccountsRequestFilter, GetAccountsResponse, Account, AccountType,
    Balance,
};
pub use auth::{
    GetAuthRequest, GetAuthRequestOptions, GetAuthResponse, AccountNumbers, ACHAccountNumber,
    EFTAccountNumber, InternationalAccountNumber, BACSAccountNumber,
};
pub use balance::{AccountBalancesGetRequest, AccountBalanceFilter, AccountBalancesGetResponse};
pub use common::{debug_text, text_of, ErrorResponse, ErrorResponseView, ErrorType};
pub use employers::{SearchEmployerRequest, SearchEmployerResponse, Employer, Address};
pub use identity::{GetIdentityRequest, IdentityFilter, GetIdentityResponse};
pub use institutions::{
    InstitutionsSearchRequest, SearchInstitutionFilter, PaymentInitiationFilter,
    InstitutionSearchResponse, InstitutionGetRequest, GetInstitutionFilter, InstitutionGetResponse,
    InstitutionsGetRequest, GetInstitutionsFilter, InstitutionsGetResponse, Institution,
};
pub use item::{
    GetItemRequest, GetItemResponse, RemoveItemRequest, RemoveItemResponse,
    UpdateItemWebhookRequest, UpdateItemWebhookResponse, Item, Status, StatusMessage,
    WebhookStatus,
};
pub use sandbox::{
    CreatePublicTokenRequest, CreatePublicTokenOptions, CreatePublicTokenOptionsTransactions,
    CreatePublicTokenResponse, ResetLoginRequest, ResetLoginResponse, SetVerificationStatusRequest,
    SetVerificationStatusResponse, FireWebhookRequest, WebhookCode, FireWebhookResponse,
};
pub use token::{
    ExchangePublicTokenRequest, ExchangePublicTokenResponse, CreateLinkTokenRequest, LinkAuth,
    IncomeVerification, DepositSwitchOptions, PaymentInitiation, LinkUser, AccountFilters,
    EUConfig, AccountFilter, CreateLinkTokenResponse, GetLinkTokenRequest, GetLinkTokenResponse,
    InvalidateAccessTokenRequest, InvalidateAccessTokenResponse,
};
pub use transactions::{
    GetTransactionsRequest, GetTransactionsOptions, GetTransactionsResponse,
    RefreshTransactionsRequest, RefreshTransactionsResponse, GetCategoriesRequest,
    GetCategoriesResponse, Category, Transaction, TransactionLocation, PaymentMetadata,
};
pub use webhooks::{GetWebhookVerificationKeyRequest, GetWebhookVerificationKeyResponse};

verus! {

/// An operation of the service: a relative path, the request value that
/// travels in the body, and the type of the payload that a successful reply
/// carries.
pub trait Endpoint {
    /// What the body of a successful reply is decoded into.
    type Response;

    /// The path of the operation, relative to the base of the environment.
    spec fn spec_path(&self) -> Seq<char>;

    /// Returns the path of the operation, relative to the base of the
    /// environment.
    fn path(&self) -> (p: String)
        ensures
            p@ == self.spec_path(),
    ;
}

} // verus!
