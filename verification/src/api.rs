use vstd::prelude::*;

use crate::client::{prepare, prepared, ClientError, Credentials, Environment, ParseError, Reply};
use crate::message::Request;
use crate::model::{CreateLinkTokenRequest, CreateLinkTokenResponse, Endpoint};

verus! {

/// What a request needs besides its payload: whom it is sent as, and where.
#[derive(Debug, Clone, PartialEq, Eq)]
pub struct Conf {
    pub credentials: Credentials,
    pub environment: Environment,
}

/// Prepares the request that creates a link token.
///
/// `payload` is what the codec made of `req`: its bytes, or the reason why
/// it could not be encoded.
pub fn create_link_token(
    cfg: &Conf,
    req: &CreateLinkTokenRequest,
    payload: Result<Vec<u8>, ParseError>,
) -> (r: Result<Request, ClientError>)
    ensures
        prepared(cfg.environment, cfg.credentials, req.spec_path(), payload, r),
{
    request(cfg, req, payload)
}

/// Interprets what the round trip of a request for a link token brought
/// back.
pub fn create_link_token_response(reply: Reply<CreateLinkTokenResponse>) -> (r: Result<
    CreateLinkTokenResponse,
    ClientError,
>)
    ensures
        r == reply.outcome(),
{
    reply.into_result()
}

/// Prepares the request for an operation.
///
/// `payload` is what the codec made of `endpoint`: its bytes, or the reason
/// why it could not be encoded.
pub fn request<E: Endpoint>(cfg: &Conf, endpoint: &E, payload: Result<Vec<u8>, ParseError>) -> (r:
    Result<Request, ClientError>)
    ensures
        prepared(cfg.environment, cfg.credentials, endpoint.spec_path(), payload, r),
{
    let path = endpoint.path();
    prepare(&cfg.environment, &cfg.credentials, path.as_str(), payload)
}

} // verus!
