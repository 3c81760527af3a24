use vstd::prelude::*;
use vstd::string::StringExecFns;

use crate::message::{
    client_id_name, content_type_name, content_type_value, first_header, folded,
    header_value_accepted, parse_header_value, parse_uri, post_json, same_name, secret_name,
    uri_accepted, Method, Request,
};
use crate::pagination::{Cursor, TransactionsIter};
use crate::model::{
    Account, AccountBalancesGetRequest, AccountBalancesGetResponse, CreateLinkTokenResponse,
    CreatePublicTokenResponse, Endpoint, ErrorResponse, ErrorResponseView,
    ExchangePublicTokenRequest, ExchangePublicTokenResponse, FireWebhookResponse,
    GetAccountsRequest, GetAccountsResponse, GetAuthResponse, GetCategoriesResponse,
    GetIdentityResponse, GetItemRequest, GetItemResponse, GetLinkTokenResponse,
    GetTransactionsRequest, GetTransactionsResponse, GetWebhookVerificationKeyResponse, Institution,
    InstitutionGetResponse, InstitutionSearchResponse, InstitutionsGetResponse,
    InvalidateAccessTokenResponse, Item, RefreshTransactionsResponse, RemoveItemRequest,
    RemoveItemResponse, ResetLoginRequest, ResetLoginResponse, SearchEmployerResponse,
    SetVerificationStatusResponse, UpdateItemWebhookRequest, UpdateItemWebhookResponse,
};

verus! {

/// The host of the sandbox environment.
pub open spec fn sandbox_domain() -> Seq<char> {
    "sandbox.plaid.com"@
}

/// The host of the development environment.
pub open spec fn development_domain() -> Seq<char> {
    "development.plaid.com"@
}

/// The host of the production environment.
pub open spec fn production_domain() -> Seq<char> {
    "production.plaid.com"@
}

/// The scheme under which the three hosted environments are reached.
pub open spec fn hosted_scheme() -> Seq<char> {
    "https://"@
}

/// What a transport reported when it could not complete a round trip.
#[derive(Debug, Clone, PartialEq, Eq)]
pub struct TransportError {
    pub message: String,
}

/// What a codec reported when it could not encode a request or decode a
/// response.
#[derive(Debug, Clone, PartialEq, Eq)]
pub struct ParseError {
    pub message: String,
}

/// Error returned by client requests.
#[derive(Debug)]
pub enum ClientError {
    /// The transport failed: no response was received.
    Http(TransportError),
    /// A request could not be encoded, or the body of a response could not
    /// be decoded.
    Parse(ParseError),
    /// The service answered, and reported a failure.
    App(ErrorResponse),
    /// The request could not be formed: `http` refused its URI or one of its
    /// header values.
    HttpBasic(http::Error),
}

impl From<TransportError> for ClientError {
    fn from(e: TransportError) -> (r: Self) {
        ClientError::Http(e)
    }
}

impl vstd::std_specs::convert::FromSpecImpl<TransportError> for ClientError {
    open spec fn obeys_from_spec() -> bool {
        true
    }

    open spec fn from_spec(e: TransportError) -> Self {
        ClientError::Http(e)
    }
}

impl From<ParseError> for ClientError {
    fn from(e: ParseError) -> (r: Self) {
        ClientError::Parse(e)
    }
}

impl vstd::std_specs::convert::FromSpecImpl<ParseError> for ClientError {
    open spec fn obeys_from_spec() -> bool {
        true
    }

    open spec fn from_spec(e: ParseError) -> Self {
        ClientError::Parse(e)
    }
}

impl From<ErrorResponse> for ClientError {
    fn from(e: ErrorResponse) -> (r: Self) {
        ClientError::App(e)
    }
}

impl vstd::std_specs::convert::FromSpecImpl<ErrorResponse> for ClientError {
    open spec fn obeys_from_spec() -> bool {
        true
    }

    open spec fn from_spec(e: ErrorResponse) -> Self {
        ClientError::App(e)
    }
}

impl From<http::Error> for ClientError {
    fn from(e: http::Error) -> (r: Self) {
        ClientError::HttpBasic(e)
    }
}

impl vstd::std_specs::convert::FromSpecImpl<http::Error> for ClientError {
    open spec fn obeys_from_spec() -> bool {
        true
    }

    open spec fn from_spec(e: http::Error) -> Self {
        ClientError::HttpBasic(e)
    }
}

/// The words that introduce a failure to form or to send a request.
pub open spec fn http_failure_prefix() -> Seq<char> {
    "http request failed: "@
}

impl ClientError {
    /// Describes the error to a reader. A failure of the transport or of the
    /// request's construction is introduced by a fixed prefix; the other two
    /// kinds read as the error they wrap.
    pub fn to_string(&self) -> (text: String)
        ensures
            match *self {
                ClientError::Http(e) => text@ == http_failure_prefix() + e.message@,
                ClientError::Parse(e) => text@ == e.message@,
                ClientError::App(e) => text@ == e.spec_to_string(),
                ClientError::HttpBasic(_) => http_failure_prefix().is_prefix_of(text@),
            },
    {
        match self {
            ClientError::Http(e) => {
                let mut text = String::from_str("http request failed: ");
                text.append(e.message.as_str());
                text
            },
            ClientError::Parse(e) => e.message.clone(),
            ClientError::App(e) => e.to_string(),
            ClientError::HttpBasic(e) => {
                let mut text = String::from_str("http request failed: ");
                let cause = e.to_string();
                text.append(cause.as_str());
                text
            },
        }
    }
}

/// Credentials required to make authenticated calls to the Plaid API.
#[derive(Debug, Clone, PartialEq, Eq)]
pub struct Credentials {
    /// Plaid API client id token.
    pub client_id: String,
    /// Plaid API secret for the configured environment (e.g. sandbox, dev, prod).
    pub secret: String,
}

/// The mathematical content of [`Credentials`].
pub struct CredentialsView {
    pub client_id: Seq<char>,
    pub secret: Seq<char>,
}

impl View for Credentials {
    type V = CredentialsView;

    open spec fn view(&self) -> CredentialsView {
        CredentialsView { client_id: self.client_id@, secret: self.secret@ }
    }
}

impl Default for Credentials {
    fn default() -> (c: Self)
        ensures
            c@ == (CredentialsView { client_id: Seq::empty(), secret: Seq::empty() }),
    {
        Credentials { client_id: String::new(), secret: String::new() }
    }
}

/// Environment controls the domain for the client, matches Plaid's sandbox,
/// development, and production environments.
#[derive(Debug, Clone, PartialEq, Eq)]
pub enum Environment {
    /// Used to configure the client to request against a the domain in the string.
    /// Should be a fully qualified domain with protocol and scheme, for example
    /// http://localhost:3000.
    Custom(String),
    /// Plaid sandbox environment.
    Sandbox,
    /// Plaid development environment.
    Development,
    /// Plaid production environment.
    Production,
}

impl Default for Environment {
    fn default() -> (e: Self)
        ensures
            e == Environment::Sandbox,
    {
        Environment::Sandbox
    }
}

impl Environment {
    /// The text that names the environment: the host of a hosted
    /// environment, and the configured text of a custom one.
    pub open spec fn spec_to_string(&self) -> Seq<char> {
        match *self {
            Environment::Sandbox => sandbox_domain(),
            Environment::Development => development_domain(),
            Environment::Production => production_domain(),
            Environment::Custom(s) => s@,
        }
    }

    /// The text that every URL of the environment begins with: scheme and
    /// host of a hosted environment, and the configured text of a custom one.
    pub open spec fn spec_base(&self) -> Seq<char> {
        match *self {
            Environment::Custom(s) => s@,
            _ => hosted_scheme() + self.spec_to_string(),
        }
    }

    /// The absolute URL of the operation at `path`: the base directly
    /// followed by the path.
    pub open spec fn spec_url(&self, path: Seq<char>) -> Seq<char> {
        self.spec_base() + path
    }

    /// Returns the host of a hosted environment, and the configured text of
    /// a custom one.
    pub fn to_string(&self) -> (s: String)
        ensures
            s@ == self.spec_to_string(),
    {
        match self {
            Environment::Sandbox => String::from_str("sandbox.plaid.com"),
            Environment::Development => String::from_str("development.plaid.com"),
            Environment::Production => String::from_str("production.plaid.com"),
            Environment::Custom(s) => s.clone(),
        }
    }

    /// Returns the text that every URL of the environment begins with.
    pub fn base(&self) -> (s: String)
        ensures
            s@ == self.spec_base(),
    {
        match self {
            Environment::Custom(s) => s.clone(),
            _ => {
                let mut s = String::from_str("https://");
                let host = self.to_string();
                s.append(host.as_str());
                s
            },
        }
    }

    /// Returns the absolute URL of the operation at `path`.
    pub fn url(&self, path: &str) -> (s: String)
        ensures
            s@ == self.spec_url(path@),
    {
        let mut s = self.base();
        s.append(path);
        s
    }
}

/// Whether `r` is what preparing a request yields for the operation at
/// `path`, in environment `env` and under `credentials`, when the codec made
/// `payload` of the request value.
///
/// A URL that `http` refuses ends the preparation first, then a payload that
/// could not be encoded, then a credential that `http` refuses as a header
/// value. Otherwise the request is the `POST` of the payload to the URL.
pub open spec fn prepared(
    env: Environment,
    credentials: Credentials,
    path: Seq<char>,
    payload: Result<Vec<u8>, ParseError>,
    r: Result<Request, ClientError>,
) -> bool {
    let url = env.spec_url(path);
    if !uri_accepted(url) {
        r matches Err(ClientError::HttpBasic(_))
    } else {
        match payload {
            Err(e) => r == Err::<Request, ClientError>(ClientError::Parse(e)),
            Ok(body) => if header_value_accepted(credentials.client_id@) && header_value_accepted(
                credentials.secret@,
            ) {
                r matches Ok(request) && request@ == post_json(
                    url,
                    credentials.client_id@,
                    credentials.secret@,
                    body@,
                )
            } else {
                r matches Err(ClientError::HttpBasic(_))
            },
        }
    }
}

/// Prepares the request for the operation at `path`.
///
/// `payload` is what the codec made of the request value: its bytes, or the
/// reason why it could not be encoded.
pub fn prepare(
    env: &Environment,
    credentials: &Credentials,
    path: &str,
    payload: Result<Vec<u8>, ParseError>,
) -> (r: Result<Request, ClientError>)
    ensures
        prepared(*env, *credentials, path@, payload, r),
{
    let url = env.url(path);
    match parse_uri(url.as_str()) {
        Err(e) => {
            return Err(ClientError::HttpBasic(e));
        },
        Ok(_) => {},
    }
    let body = match payload {
        Err(e) => {
            return Err(ClientError::Parse(e));
        },
        Ok(body) => body,
    };
    match parse_header_value(credentials.client_id.as_str()) {
        Err(e) => {
            return Err(ClientError::HttpBasic(e));
        },
        Ok(_) => {},
    }
    match parse_header_value(credentials.secret.as_str()) {
        Err(e) => {
            return Err(ClientError::HttpBasic(e));
        },
        Ok(_) => {},
    }
    Ok(Request::post_json(url, &credentials.client_id, &credentials.secret, body))
}

/// Which shape the body of a response has.
#[derive(Debug, Clone, Copy, PartialEq, Eq, Structural)]
pub enum BodyKind {
    /// The payload that the operation declares.
    Payload,
    /// An [`ErrorResponse`].
    Error,
}

/// Whether a status code lies in the success class, 200 to 299.
pub open spec fn status_is_success(status: u16) -> bool {
    200 <= status <= 299
}

/// The shape of the body that comes with a status code: the declared payload
/// with a code of the success class, an error body with any other.
pub open spec fn spec_body_kind(status: u16) -> BodyKind {
    if status_is_success(status) {
        BodyKind::Payload
    } else {
        BodyKind::Error
    }
}

/// Tells whether a status code lies in the success class.
pub fn is_success(status: u16) -> (ok: bool)
    ensures
        ok == status_is_success(status),
{
    200 <= status && status <= 299
}

/// Tells which shape the body of a response with this status code is to be
/// decoded as.
pub fn body_kind(status: u16) -> (kind: BodyKind)
    ensures
        kind == spec_body_kind(status),
{
    if is_success(status) {
        BodyKind::Payload
    } else {
        BodyKind::Error
    }
}

/// What one round trip brought back.
#[derive(Debug)]
pub enum Reply<T> {
    /// Nothing: the transport failed.
    Transport(TransportError),
    /// A response with a status of the success class, and what the codec made
    /// of its body as the declared payload.
    Payload(Result<T, ParseError>),
    /// A response with any other status, and what the codec made of its body
    /// as an [`ErrorResponse`].
    Error(Result<ErrorResponse, ParseError>),
}

impl<T> Reply<T> {
    /// The result of the operation: the payload where one arrived and could
    /// be decoded, and otherwise the one error that applies.
    pub open spec fn outcome(self) -> Result<T, ClientError> {
        match self {
            Reply::Transport(e) => Err(ClientError::Http(e)),
            Reply::Payload(Ok(value)) => Ok(value),
            Reply::Payload(Err(e)) => Err(ClientError::Parse(e)),
            Reply::Error(Ok(e)) => Err(ClientError::App(e)),
            Reply::Error(Err(e)) => Err(ClientError::Parse(e)),
        }
    }

    /// Interprets the reply.
    pub fn into_result(self) -> (r: Result<T, ClientError>)
        ensures
            r == self.outcome(),
    {
        match self {
            Reply::Transport(e) => Err(ClientError::Http(e)),
            Reply::Payload(Ok(value)) => Ok(value),
            Reply::Payload(Err(e)) => Err(ClientError::Parse(e)),
            Reply::Error(Ok(e)) => Err(ClientError::App(e)),
            Reply::Error(Err(e)) => Err(ClientError::Parse(e)),
        }
    }
}

/// Plaid API client type.
pub struct Plaid {
    credentials: Credentials,
    env: Environment,
}

/// Builder helps construct Plaid client types with sensible defaults.
pub struct Builder {
    credentials: Option<Credentials>,
    env: Option<Environment>,
}

impl Default for Builder {
    fn default() -> (b: Self)
        ensures
            b.spec_credentials() is None,
            b.spec_env() is None,
    {
        Builder::new()
    }
}

impl Builder {
    /// The credentials that were set, if any.
    pub closed spec fn spec_credentials(&self) -> Option<Credentials> {
        self.credentials
    }

    /// The environment that was set, if any.
    pub closed spec fn spec_env(&self) -> Option<Environment> {
        self.env
    }

    /// Constructs a new Plaid client builder.
    pub fn new() -> (b: Self)
        ensures
            b.spec_credentials() is None,
            b.spec_env() is None,
    {
        Builder { credentials: None, env: None }
    }

    /// Set Plaid API credentials for authenticating Plaid API calls.
    pub fn with_credentials(self, creds: Credentials) -> (b: Self)
        ensures
            b.spec_credentials() == Some(creds),
            b.spec_env() == self.spec_env(),
    {
        Builder { credentials: Some(creds), env: self.env }
    }

    /// Set API request environment.
    pub fn with_env(self, env: Environment) -> (b: Self)
        ensures
            b.spec_credentials() == self.spec_credentials(),
            b.spec_env() == Some(env),
    {
        Builder { credentials: self.credentials, env: Some(env) }
    }

    /// Consume a builder returning a Plaid client instance. Credentials that
    /// were not set are empty, and an environment that was not set is the
    /// sandbox.
    pub fn build(self) -> (plaid: Plaid)
        ensures
            match self.spec_credentials() {
                Some(c) => plaid.spec_credentials() == c,
                None => plaid.spec_credentials()@ == (CredentialsView {
                    client_id: Seq::empty(),
                    secret: Seq::empty(),
                }),
            },
            match self.spec_env() {
                Some(e) => plaid.spec_env() == e,
                None => plaid.spec_env() == Environment::Sandbox,
            },
    {
        let credentials = match self.credentials {
            Some(c) => c,
            None => Credentials::default(),
        };
        let env = match self.env {
            Some(e) => e,
            None => Environment::default(),
        };
        Plaid { credentials, env }
    }
}

impl Plaid {
    /// The credentials that every request of this client carries.
    pub closed spec fn spec_credentials(&self) -> Credentials {
        self.credentials
    }

    /// The environment that every request of this client goes to.
    pub closed spec fn spec_env(&self) -> Environment {
        self.env
    }

    /// Returns the credentials that every request of this client carries.
    pub fn credentials(&self) -> (c: &Credentials)
        ensures
            *c == self.spec_credentials(),
    {
        &self.credentials
    }

    /// Returns the environment that every request of this client goes to.
    pub fn env(&self) -> (e: &Environment)
        ensures
            *e == self.spec_env(),
    {
        &self.env
    }

    /// Starts a walk through the pages of the transaction listing that `req`
    /// asks for.
    pub fn transactions_iter(&self, req: GetTransactionsRequest) -> (it: TransactionsIter)
        ensures
            it@ == Cursor::start(req),
    {
        TransactionsIter::new(req)
    }

    /// Prepares the request for an operation.
    ///
    /// `payload` is what the codec made of `endpoint`: its bytes, or the
    /// reason why it could not be encoded.
    pub fn request<E: Endpoint>(&self, endpoint: &E, payload: Result<Vec<u8>, ParseError>) -> (r:
        Result<Request, ClientError>)
        ensures
            prepared(self.spec_env(), self.spec_credentials(), endpoint.spec_path(), payload, r),
    {
        let path = endpoint.path();
        prepare(&self.env, &self.credentials, path.as_str(), payload)
    }
}

/// The message of the application error that stands for a login that the
/// service did not reset.
pub open spec fn reset_login_failure() -> Seq<char> {
    "failed to reset login"@
}

impl Plaid {
    /// Returns details for institutions that match the query parameters up to a
    /// maximum of ten institutions per query.
    ///
    /// `reply` is what the round trip of the request brought back.
    pub fn search_institutions(&self, reply: Reply<InstitutionSearchResponse>) -> (r: Result<
        Vec<Institution>,
        ClientError,
    >)
        ensures
            r == match reply.outcome() {
                Ok(res) => Ok(res.institutions),
                Err(e) => Err(e),
            },
    {
        match reply.into_result() {
            Ok(res) => Ok(res.institutions),
            Err(e) => Err(e),
        }
    }

    /// Returns details on an institution currently supported by plaid.
    ///
    /// `reply` is what the round trip of the request brought back.
    pub fn get_institution_by_id(&self, reply: Reply<InstitutionGetResponse>) -> (r: Result<
        Institution,
        ClientError,
    >)
        ensures
            r == match reply.outcome() {
                Ok(res) => Ok(res.institution),
                Err(e) => Err(e),
            },
    {
        match reply.into_result() {
            Ok(res) => Ok(res.institution),
            Err(e) => Err(e),
        }
    }

    /// Returns details on all financial institutions currently supported by
    /// Plaid. Plaid supports thousands of institutions and results are
    /// paginated. Institutions with no overlap to the client's enabled products
    /// are filtered from results.
    ///
    /// `reply` is what the round trip of the request brought back.
    pub fn get_institutions(&self, reply: Reply<InstitutionsGetResponse>) -> (r: Result<
        Vec<Institution>,
        ClientError,
    >)
        ensures
            r == match reply.outcome() {
                Ok(res) => Ok(res.institutions),
                Err(e) => Err(e),
            },
    {
        match reply.into_result() {
            Ok(res) => Ok(res.institutions),
            Err(e) => Err(e),
        }
    }

    /// Creates a valid `public_token` for an institution ID, initial products,
    /// and test credentials. The created public token maps to a new Sandbox
    /// item.
    ///
    /// `reply` is what the round trip of the request brought back.
    pub fn create_public_token(&self, reply: Reply<CreatePublicTokenResponse>) -> (r: Result<
        String,
        ClientError,
    >)
        ensures
            r == match reply.outcome() {
                Ok(res) => Ok(res.public_token),
                Err(e) => Err(e),
            },
    {
        match reply.into_result() {
            Ok(res) => Ok(res.public_token),
            Err(e) => Err(e),
        }
    }

    /// The request value that `reset_login` sends.
    pub fn reset_login_request(&self, access_token: String) -> (d: ResetLoginRequest)
        ensures
            d.access_token == access_token,
    {
        ResetLoginRequest { access_token }
    }

    /// Forces an item into an `ITEM_LOGIN_REQUIRED` state in order to simulate
    /// an Item whose login is no longer valid.
    ///
    /// `reply` is what the round trip of the request brought back. A payload
    /// that reports that the login was not reset is an application error, with
    /// a fixed message and nothing else.
    pub fn reset_login(&self, reply: Reply<ResetLoginResponse>) -> (r: Result<(), ClientError>)
        ensures
            match reply.outcome() {
                Ok(res) => if res.reset_login {
                    r == Ok::<(), ClientError>(())
                } else {
                    r matches Err(ClientError::App(e)) && e@ == ErrorResponseView::with_message(
                        reset_login_failure(),
                    )
                },
                Err(e) => r == Err::<(), ClientError>(e),
            },
    {
        match reply.into_result() {
            Ok(res) => {
                if res.reset_login {
                    Ok(())
                } else {
                    Err(
                        ClientError::App(
                            ErrorResponse::with_message(String::from_str("failed to reset login")),
                        ),
                    )
                }
            },
            Err(e) => Err(e),
        }
    }

    /// The request value that `exchange_public_token` sends.
    pub fn exchange_public_token_request(&self, public_token: String) -> (d:
        ExchangePublicTokenRequest)
        ensures
            d.public_token == public_token,
    {
        ExchangePublicTokenRequest { public_token }
    }

    /// Exchange a Link `public_token` for an API `access_token`. Public tokens
    /// are ephemeral and expires after 30 minutes.
    ///
    /// `reply` is what the round trip of the request brought back.
    pub fn exchange_public_token(&self, reply: Reply<ExchangePublicTokenResponse>) -> (r:
        Result<ExchangePublicTokenResponse, ClientError>)
        ensures
            r == reply.outcome(),
    {
        reply.into_result()
    }

    /// Creates a `link_token` that is required as a parameter when initializing
    /// a Link.
    ///
    /// `reply` is what the round trip of the request brought back.
    pub fn create_link_token(&self, reply: Reply<CreateLinkTokenResponse>) -> (r:
        Result<CreateLinkTokenResponse, ClientError>)
        ensures
            r == reply.outcome(),
    {
        reply.into_result()
    }

    /// The request value that `accounts` sends.
    pub fn accounts_request(&self, access_token: String) -> (d: GetAccountsRequest)
        ensures
            d.access_token == access_token,
            d.options is None,
    {
        GetAccountsRequest { access_token, options: None }
    }

    /// Retrieves information for any linked item, only active accounts are
    /// returned. Responses may be cached, if up-to-date information is required
    /// use `balances` instead.
    ///
    /// `reply` is what the round trip of the request brought back.
    pub fn accounts(&self, reply: Reply<GetAccountsResponse>) -> (r: Result<
        Vec<Account>,
        ClientError,
    >)
        ensures
            r == match reply.outcome() {
                Ok(res) => Ok(res.accounts),
                Err(e) => Err(e),
            },
    {
        match reply.into_result() {
            Ok(res) => Ok(res.accounts),
            Err(e) => Err(e),
        }
    }

    /// The request value that `item` sends.
    pub fn item_request(&self, access_token: String) -> (d: GetItemRequest)
        ensures
            d.access_token == access_token,
    {
        GetItemRequest { access_token }
    }

    /// Returns information about the status of an Item.
    ///
    /// `reply` is what the round trip of the request brought back.
    pub fn item(&self, reply: Reply<GetItemResponse>) -> (r: Result<Item, ClientError>)
        ensures
            r == match reply.outcome() {
                Ok(res) => Ok(res.item),
                Err(e) => Err(e),
            },
    {
        match reply.into_result() {
            Ok(res) => Ok(res.item),
            Err(e) => Err(e),
        }
    }

    /// The request value that `item_del` sends.
    pub fn item_del_request(&self, access_token: String) -> (d: RemoveItemRequest)
        ensures
            d.access_token == access_token,
    {
        RemoveItemRequest { access_token }
    }

    /// Removes an Item. Once removed, the `access_token` associated with the
    /// Item is no longer valid and cannot be used to access any data that was
    /// associated with the Item.
    ///
    /// `reply` is what the round trip of the request brought back.
    pub fn item_del(&self, reply: Reply<RemoveItemResponse>) -> (r: Result<(), ClientError>)
        ensures
            r == match reply.outcome() {
                Ok(_) => Ok(()),
                Err(e) => Err(e),
            },
    {
        match reply.into_result() {
            Ok(_) => Ok(()),
            Err(e) => Err(e),
        }
    }

    /// The request value that `item_webhook_update` sends.
    pub fn item_webhook_update_request(&self, access_token: String, webhook: String) -> (d:
        UpdateItemWebhookRequest)
        ensures
            d.access_token == access_token,
            d.webhook == webhook,
    {
        UpdateItemWebhookRequest { access_token, webhook }
    }

    /// Updates the webhook URL associated with an Item. Updates trigger a
    /// `WEBHOOK_UPDATE_ACKNOWLEDGED` event to the new webhook URL.
    ///
    /// `reply` is what the round trip of the request brought back.
    pub fn item_webhook_update(&self, reply: Reply<UpdateItemWebhookResponse>) -> (r: Result<
        Item,
        ClientError,
    >)
        ensures
            r == match reply.outcome() {
                Ok(res) => Ok(res.item),
                Err(e) => Err(e),
            },
    {
        match reply.into_result() {
            Ok(res) => Ok(res.item),
            Err(e) => Err(e),
        }
    }

    /// The request value that `balances` sends.
    pub fn balances_request(&self, access_token: String) -> (d: AccountBalancesGetRequest)
        ensures
            d.access_token == access_token,
            d.options is None,
    {
        AccountBalancesGetRequest { access_token, options: None }
    }

    /// Verify real-time account balances. This endpoint can be used as long as
    /// Link has been initialized with any other product.
    ///
    /// `reply` is what the round trip of the request brought back.
    pub fn balances(&self, reply: Reply<AccountBalancesGetResponse>) -> (r: Result<
        Vec<Account>,
        ClientError,
    >)
        ensures
            r == match reply.outcome() {
                Ok(res) => Ok(res.accounts),
                Err(e) => Err(e),
            },
    {
        match reply.into_result() {
            Ok(res) => Ok(res.accounts),
            Err(e) => Err(e),
        }
    }

    /// Returns the bank account and bank identification numbers associated with
    /// an Item's checking and savings accounts, along with high-level account
    /// data and balances when available.
    ///
    /// `reply` is what the round trip of the request brought back.
    pub fn auth(&self, reply: Reply<GetAuthResponse>) -> (r: Result<GetAuthResponse, ClientError>)
        ensures
            r == reply.outcome(),
    {
        reply.into_result()
    }

    /// Verify the name, address, phone number, and email address of a user
    /// against bank account information on file.
    ///
    /// `reply` is what the round trip of the request brought back.
    pub fn identity(&self, reply: Reply<GetIdentityResponse>) -> (r:
        Result<GetIdentityResponse, ClientError>)
        ensures
            r == reply.outcome(),
    {
        reply.into_result()
    }

    /// Triggers a Transactions `DEFAULT_UPDATE` webhook for a given Sandbox
    /// Item. If the Item does not support Transactions, a
    /// `SANDBOX_PRODUCT_NOT_ENABLED` error will result.
    ///
    /// `reply` is what the round trip of the request brought back.
    pub fn fire_webhook(&self, reply: Reply<FireWebhookResponse>) -> (r:
        Result<FireWebhookResponse, ClientError>)
        ensures
            r == reply.outcome(),
    {
        reply.into_result()
    }

    /// Changes the verification status of an Item in the sandbox in order to
    /// simulate the Automated Micro-deposit flow.
    ///
    /// `reply` is what the round trip of the request brought back.
    pub fn set_verification_status(&self, reply: Reply<SetVerificationStatusResponse>) -> (r:
        Result<SetVerificationStatusResponse, ClientError>)
        ensures
            r == reply.outcome(),
    {
        reply.into_result()
    }

    /// Searches Plaid's database for known employers to use with Deposit
    /// Switch.
    ///
    /// `reply` is what the round trip of the request brought back.
    pub fn search_employers(&self, reply: Reply<SearchEmployerResponse>) -> (r:
        Result<SearchEmployerResponse, ClientError>)
        ensures
            r == reply.outcome(),
    {
        reply.into_result()
    }

    /// Provides a JSON Web Key (JWK) that can be used to verify a JWT.
    ///
    /// `reply` is what the round trip of the request brought back.
    pub fn create_webhook_verification_key(
        &self,
        reply: Reply<GetWebhookVerificationKeyResponse>,
    ) -> (r: Result<GetWebhookVerificationKeyResponse, ClientError>)
        ensures
            r == reply.outcome(),
    {
        reply.into_result()
    }

    /// Gets information about a `link_token`, can be useful for debugging.
    ///
    /// `reply` is what the round trip of the request brought back.
    pub fn link_token(&self, reply: Reply<GetLinkTokenResponse>) -> (r:
        Result<GetLinkTokenResponse, ClientError>)
        ensures
            r == reply.outcome(),
    {
        reply.into_result()
    }

    /// Rotate the `access_token` associated with an Item. Call returns a new
    /// `access_token` and immediately invalidates the previous token.
    ///
    /// `reply` is what the round trip of the request brought back.
    pub fn invalidate_access_token(&self, reply: Reply<InvalidateAccessTokenResponse>) -> (r:
        Result<InvalidateAccessTokenResponse, ClientError>)
        ensures
            r == reply.outcome(),
    {
        reply.into_result()
    }

    /// Get detailed information on categories returned by Plaid. This endpoint
    /// does not require authentication.
    ///
    /// `reply` is what the round trip of the request brought back.
    pub fn categories(&self, reply: Reply<GetCategoriesResponse>) -> (r:
        Result<GetCategoriesResponse, ClientError>)
        ensures
            r == reply.outcome(),
    {
        reply.into_result()
    }

    /// Initiates on-demand extraction to fetch the newest transactions for an
    /// Item.
    ///
    /// `reply` is what the round trip of the request brought back.
    pub fn refresh_transactions(&self, reply: Reply<RefreshTransactionsResponse>) -> (r: Result<
        (),
        ClientError,
    >)
        ensures
            r == match reply.outcome() {
                Ok(_) => Ok(()),
                Err(e) => Err(e),
            },
    {
        match reply.into_result() {
            Ok(_) => Ok(()),
            Err(e) => Err(e),
        }
    }

    /// Returns user-authorized transaction data for credit, depository, and
    /// some loan-type accounts. For transaction history from investment
    /// accounts, use investment endpoints instead (production only). Results
    /// are paginated based on request options and defaults to 100 entities per
    /// page.
    ///
    /// `reply` is what the round trip of the request brought back.
    pub fn transactions(&self, reply: Reply<GetTransactionsResponse>) -> (r:
        Result<GetTransactionsResponse, ClientError>)
        ensures
            r == reply.outcome(),
    {
        reply.into_result()
    }
}

/// Every request that is prepared is a `POST` to the URL made of the base of
/// the environment directly followed by the path of the operation, and it
/// carries three header fields: the announcement of a JSON body, the client
/// identifier and the secret.
pub proof fn law_prepared_requests_are_authenticated_posts(
    env: Environment,
    credentials: Credentials,
    path: Seq<char>,
    payload: Result<Vec<u8>, ParseError>,
    r: Result<Request, ClientError>,
)
    requires
        prepared(env, credentials, path, payload, r),
        r is Ok,
    ensures
        r->Ok_0@.method == Method::Post,
        r->Ok_0@.uri == env.spec_base() + path,
        r->Ok_0@.headers.len() == 3,
        r->Ok_0@.header(content_type_name()) == Some(content_type_value()),
        r->Ok_0@.header(client_id_name()) == Some(credentials.client_id@),
        r->Ok_0@.header(secret_name()) == Some(credentials.secret@),
        payload matches Ok(body) && r->Ok_0@.body == body@,
{
    reveal_strlit("Content-Type");
    reveal_strlit("PLAID-CLIENT-ID");
    reveal_strlit("PLAID-SECRET");
    let headers = r->Ok_0@.headers;
    let rest = headers.drop_first();
    assert(rest[0] == headers[1]);
    assert(rest.drop_first()[0] == headers[2]);
    assert(same_name(content_type_name(), content_type_name()));
    assert(same_name(client_id_name(), client_id_name()));
    assert(same_name(secret_name(), secret_name()));
    assert(!same_name(content_type_name(), client_id_name()));
    assert(!same_name(content_type_name(), secret_name())) by {
        assert(folded(content_type_name()[0]) != folded(secret_name()[0]));
    }
    assert(!same_name(client_id_name(), secret_name())) by {
        assert(folded(client_id_name()[6]) != folded(secret_name()[6]));
    }
    reveal_with_fuel(first_header, 4);
}

/// A status outside the success class calls for an error body; such a body
/// that could be decoded becomes the application error that holds it,
/// unchanged, and one that could not becomes the parse error.
pub proof fn law_error_status_yields_application_error<T>(
    status: u16,
    decoded: Result<ErrorResponse, ParseError>,
)
    requires
        !status_is_success(status),
    ensures
        spec_body_kind(status) == BodyKind::Error,
        match decoded {
            Ok(e) => Reply::<T>::Error(decoded).outcome() == Err::<T, ClientError>(
                ClientError::App(e),
            ),
            Err(e) => Reply::<T>::Error(decoded).outcome() == Err::<T, ClientError>(
                ClientError::Parse(e),
            ),
        },
{
}

/// A reply has one outcome out of four: a payload, an application error, a
/// failure of the transport, or a parse error. It is never an error of the
/// request's construction, which is found before anything is sent.
pub proof fn law_outcome_is_one_of_four<T>(reply: Reply<T>)
    ensures
        match reply.outcome() {
            Ok(_) => true,
            Err(ClientError::App(_)) => true,
            Err(ClientError::Http(_)) => true,
            Err(ClientError::Parse(_)) => true,
            Err(ClientError::HttpBasic(_)) => false,
        },
{
}

} // verus!
