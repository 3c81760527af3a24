use rplaid::client::{Builder, ClientError, Reply};
use rplaid::model::{
    Account, AccountBalancesGetRequest, AccountBalancesGetResponse, AccountType, Balance,
    CreateLinkTokenRequest, CreatePublicTokenRequest, CreatePublicTokenResponse, Endpoint,
    ExchangePublicTokenRequest, ExchangePublicTokenResponse, FireWebhookRequest,
    GetAccountsRequest, GetAccountsResponse, GetAuthRequest, GetCategoriesRequest,
    GetIdentityRequest, GetItemRequest, GetLinkTokenRequest, GetTransactionsRequest,
    GetWebhookVerificationKeyRequest, Institution, InstitutionGetRequest, InstitutionGetResponse,
    InstitutionSearchResponse, InstitutionsGetRequest, InstitutionsGetResponse,
    InstitutionsSearchRequest, InvalidateAccessTokenRequest, Item, LinkUser,
    RefreshTransactionsRequest, RefreshTransactionsResponse, RemoveItemRequest,
    RemoveItemResponse, ResetLoginRequest, SearchEmployerRequest, SetVerificationStatusRequest,
    UpdateItemWebhookRequest, UpdateItemWebhookResponse, WebhookCode,
};
use rust_decimal::Decimal;

fn s(text: &str) -> String {
    text.to_string()
}

fn item() -> Item {
    Item {
        item_id: s("item-1"),
        institution_id: None,
        webhook: Some(s("https://example.com/hook")),
        error: None,
        available_products: Vec::new(),
        billed_products: vec![s("auth")],
        consent_expiration_time: None,
        update_type: s("background"),
        status: None,
    }
}

fn account(id: &str) -> Account {
    Account {
        account_id: s(id),
        balances: Balance {
            available: Some(Decimal::new(10050, 2)),
            current: Some(Decimal::new(11000, 2)),
            iso_currency_code: Some(s("USD")),
            limit: None,
            unofficial_currency_code: None,
        },
        mask: Some(s("0000")),
        name: s("Plaid Checking"),
        official_name: None,
        account_type: AccountType::Depository,
        subtype: Some(s("checking")),
        verification_status: None,
    }
}

fn institution(id: &str) -> Institution {
    Institution {
        institution_id: s(id),
        name: s("Banque Populaire"),
        products: vec![s("assets"), s("auth")],
        country_codes: vec![s("US")],
        url: None,
        primary_color: None,
        logo: None,
        routing_numbers: None,
        oauth: false,
    }
}

#[test]
fn paths_of_the_account_operations() {
    assert_eq!(GetAccountsRequest { access_token: s("t"), options: None }.path(), "/accounts/get");
    assert_eq!(
        AccountBalancesGetRequest { access_token: s("t"), options: None }.path(),
        "/accounts/balance/get"
    );
    assert_eq!(GetAuthRequest { access_token: s("t"), options: None }.path(), "/auth/get");
    assert_eq!(GetIdentityRequest { access_token: s("t"), options: None }.path(), "/identity/get");
}

#[test]
fn paths_of_the_institution_operations() {
    let search = InstitutionsSearchRequest {
        query: s("Banque Populaire"),
        products: None,
        country_codes: vec![s("US")],
        options: None,
    };
    assert_eq!(search.path(), "/institutions/search");
    let by_id = InstitutionGetRequest {
        institution_id: s("ins_129571"),
        country_codes: vec![s("US")],
        options: None,
    };
    assert_eq!(by_id.path(), "/institutions/get_by_id");
    let all = InstitutionsGetRequest { count: 10, offset: 0, country_codes: vec![s("US")], options: None };
    assert_eq!(all.path(), "/institutions/get");
    let employers = SearchEmployerRequest { query: s("acme"), products: vec![s("deposit_switch")] };
    assert_eq!(employers.path(), "/employers/search");
}

#[test]
fn paths_of_the_item_operations() {
    assert_eq!(GetItemRequest { access_token: s("t") }.path(), "/item/get");
    assert_eq!(RemoveItemRequest { access_token: s("t") }.path(), "/item/remove");
    assert_eq!(
        UpdateItemWebhookRequest { access_token: s("t"), webhook: s("w") }.path(),
        "/item/webhook/update"
    );
    assert_eq!(
        GetWebhookVerificationKeyRequest { key_id: s("k") }.path(),
        "/webhook_verification_key/get"
    );
}

#[test]
fn paths_of_the_sandbox_operations() {
    assert_eq!(CreatePublicTokenRequest::default().path(), "/sandbox/public_token/create");
    assert_eq!(ResetLoginRequest { access_token: s("t") }.path(), "/sandbox/item/reset_login");
    let verification = SetVerificationStatusRequest {
        access_token: s("t"),
        account_id: s("a"),
        verification_status: s("automatically_verified"),
    };
    assert_eq!(verification.path(), "/sandbox/item/set_verification_status");
    let fire = FireWebhookRequest { access_token: s("t"), webhook_code: WebhookCode::DefaultUpdate };
    assert_eq!(fire.path(), "/sandbox/item/fire_webhook");
}

#[test]
fn paths_of_the_token_operations() {
    assert_eq!(
        ExchangePublicTokenRequest { public_token: s("p") }.path(),
        "/item/public_token/exchange"
    );
    assert_eq!(CreateLinkTokenRequest::default().path(), "/link/token/create");
    assert_eq!(GetLinkTokenRequest { link_token: s("l") }.path(), "/link/token/get");
    assert_eq!(
        InvalidateAccessTokenRequest { access_token: s("t") }.path(),
        "/item/access_token/invalidate"
    );
}

#[test]
fn paths_of_the_transaction_operations() {
    let get = GetTransactionsRequest {
        access_token: s("t"),
        start_date: s("2021-09-01"),
        end_date: s("2021-09-05"),
        options: None,
    };
    assert_eq!(get.path(), "/transactions/get");
    assert_eq!(RefreshTransactionsRequest { access_token: s("t") }.path(), "/transactions/refresh");
    assert_eq!(GetCategoriesRequest {}.path(), "/categories/get");
}

#[test]
fn link_user_is_known_by_its_id_alone() {
    let user = LinkUser::new(s("test-user"));
    assert_eq!(user, LinkUser { client_user_id: s("test-user"), ..LinkUser::default() });
    assert_eq!(user.client_user_id, "test-user");
    assert!(user.legal_name.is_none());
    assert!(user.phone_number.is_none());
    assert!(user.phone_number_verified_time.is_none());
    assert!(user.email_address.is_none());
    assert!(user.email_address_verified_time.is_none());
    assert!(user.ssn.is_none());
    assert!(user.date_of_birth.is_none());
}

#[test]
fn request_values_of_the_token_operations() {
    let client = Builder::new().build();
    assert_eq!(
        client.accounts_request(s("access-1")),
        GetAccountsRequest { access_token: s("access-1"), options: None }
    );
    assert_eq!(
        client.balances_request(s("access-1")),
        AccountBalancesGetRequest { access_token: s("access-1"), options: None }
    );
    assert_eq!(client.item_del_request(s("access-1")), RemoveItemRequest { access_token: s("access-1") });
    assert_eq!(
        client.item_webhook_update_request(s("access-1"), s("https://example.com/hook")),
        UpdateItemWebhookRequest { access_token: s("access-1"), webhook: s("https://example.com/hook") }
    );
    assert_eq!(
        client.exchange_public_token_request(s("public-1")),
        ExchangePublicTokenRequest { public_token: s("public-1") }
    );
}

#[test]
fn results_are_taken_out_of_the_payloads() {
    let client = Builder::new().build();
    let res = GetAccountsResponse { accounts: vec![account("a"), account("b")], item: item(), request_id: s("r") };
    assert_eq!(client.accounts(Reply::Payload(Ok(res))).unwrap(), vec![account("a"), account("b")]);
    let res = AccountBalancesGetResponse { accounts: vec![account("c")], item: item(), request_id: s("r") };
    assert_eq!(client.balances(Reply::Payload(Ok(res))).unwrap(), vec![account("c")]);
    let res = InstitutionSearchResponse { institutions: vec![institution("ins_1")] };
    assert_eq!(client.search_institutions(Reply::Payload(Ok(res))).unwrap(), vec![institution("ins_1")]);
    let res = InstitutionsGetResponse { institutions: vec![institution("ins_1"), institution("ins_2")] };
    assert_eq!(client.get_institutions(Reply::Payload(Ok(res))).unwrap().len(), 2);
    let res = InstitutionGetResponse { institution: institution("ins_129571") };
    assert_eq!(client.get_institution_by_id(Reply::Payload(Ok(res))).unwrap(), institution("ins_129571"));
    let res = CreatePublicTokenResponse { public_token: s("public-sandbox-1") };
    assert_eq!(client.create_public_token(Reply::Payload(Ok(res))).unwrap(), "public-sandbox-1");
    let res = UpdateItemWebhookResponse { item: item(), request_id: s("r") };
    assert_eq!(client.item_webhook_update(Reply::Payload(Ok(res))).unwrap(), item());
    let res = RemoveItemResponse { request_id: s("r") };
    assert!(client.item_del(Reply::Payload(Ok(res))).is_ok());
    let res = RefreshTransactionsResponse { request_id: s("r") };
    assert!(client.refresh_transactions(Reply::Payload(Ok(res))).is_ok());
    let res = ExchangePublicTokenResponse { access_token: s("access-1"), item_id: s("item-1"), request_id: s("r") };
    assert_eq!(client.exchange_public_token(Reply::Payload(Ok(res.clone()))).unwrap(), res);
}

#[test]
fn errors_pass_through_every_operation() {
    let client = Builder::new().build();
    let body = rplaid::model::ErrorResponse {
        error_type: Some(rplaid::model::ErrorType::ItemError),
        ..rplaid::model::ErrorResponse::default()
    };
    match client.accounts(Reply::Error(Ok(body.clone()))) {
        Err(ClientError::App(e)) => assert_eq!(e, body),
        other => panic!("unexpected result: {:?}", other),
    }
    assert!(matches!(client.item_del(Reply::Error(Ok(body.clone()))), Err(ClientError::App(_))));
    assert!(matches!(
        client.refresh_transactions(Reply::Error(Ok(body.clone()))),
        Err(ClientError::App(_))
    ));
    assert!(matches!(client.categories(Reply::Error(Ok(body))), Err(ClientError::App(_))));
}
