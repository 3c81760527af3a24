use vstd::prelude::*;
use vstd::string::{StrSliceExecFns, StringExecFns};

verus! {

/// `http::Error`: the reason why `http` refused a part of a request. It is
/// carried as it is; nothing is known of what it holds.
#[verifier::external_type_specification]
#[verifier::external_body]
pub struct ExHttpError(http::Error);

/// The name of the header that announces the encoding of the body.
pub open spec fn content_type_name() -> Seq<char> {
    "Content-Type"@
}

/// The encoding that every request body has.
pub open spec fn content_type_value() -> Seq<char> {
    "application/json"@
}

/// The name of the header that carries the client identifier.
pub open spec fn client_id_name() -> Seq<char> {
    "PLAID-CLIENT-ID"@
}

/// The name of the header that carries the secret.
pub open spec fn secret_name() -> Seq<char> {
    "PLAID-SECRET"@
}

/// An HTTP request method.
#[derive(Debug, Clone, Copy, PartialEq, Eq, Structural)]
pub enum Method {
    Get,
    Post,
    Put,
    Delete,
}

/// One header field of a request.
#[derive(Debug, Clone, PartialEq, Eq)]
pub struct Header {
    pub name: String,
    pub value: String,
}

impl View for Header {
    type V = (Seq<char>, Seq<char>);

    open spec fn view(&self) -> (Seq<char>, Seq<char>) {
        (self.name@, self.value@)
    }
}

/// A request as it is handed to a transport: plain values, ready to be sent.
#[derive(Debug, Clone, PartialEq, Eq)]
pub struct Request {
    pub method: Method,
    /// The absolute URL.
    pub uri: String,
    /// The header fields, in the order in which they were set.
    pub headers: Vec<Header>,
    /// The encoded payload.
    pub body: Vec<u8>,
}

/// The mathematical content of a [`Request`].
pub struct RequestView {
    pub method: Method,
    pub uri: Seq<char>,
    pub headers: Seq<(Seq<char>, Seq<char>)>,
    pub body: Seq<u8>,
}

impl View for Request {
    type V = RequestView;

    open spec fn view(&self) -> RequestView {
        RequestView {
            method: self.method,
            uri: self.uri@,
            headers: self.headers@.map_values(|h: Header| h@),
            body: self.body@,
        }
    }
}

impl RequestView {
    /// The value of the first header field called `name`, if there is one.
    pub open spec fn header(self, name: Seq<char>) -> Option<Seq<char>> {
        first_header(self.headers, name)
    }
}

/// The code of a character, with the capital letters of ASCII taken as their
/// small ones.
pub open spec fn folded(c: char) -> u32 {
    if 'A' <= c <= 'Z' {
        (c as u32 + 32) as u32
    } else {
        c as u32
    }
}

/// Whether two texts name the same header field: field names are the same
/// up to the case of their ASCII letters.
pub open spec fn same_name(a: Seq<char>, b: Seq<char>) -> bool {
    &&& a.len() == b.len()
    &&& forall|i: int| 0 <= i < a.len() ==> folded(#[trigger] a[i]) == folded(b[i])
}

/// The value of the first field called `name` among `headers`.
pub open spec fn first_header(headers: Seq<(Seq<char>, Seq<char>)>, name: Seq<char>) -> Option<
    Seq<char>,
>
    decreases headers.len(),
{
    if headers.len() == 0 {
        None
    } else if same_name(headers[0].0, name) {
        Some(headers[0].1)
    } else {
        first_header(headers.drop_first(), name)
    }
}

/// The request that every operation of the service is sent as: a `POST` to
/// `uri` whose three header fields announce a JSON body and carry the two
/// credentials, in that order.
pub open spec fn post_json(
    uri: Seq<char>,
    client_id: Seq<char>,
    secret: Seq<char>,
    body: Seq<u8>,
) -> RequestView {
    RequestView {
        method: Method::Post,
        uri,
        headers: seq![
            (content_type_name(), content_type_value()),
            (client_id_name(), client_id),
            (secret_name(), secret),
        ],
        body,
    }
}

/// Whether `http::Uri::try_from` accepts a text as a URI.
pub uninterp spec fn uri_accepted(text: Seq<char>) -> bool;

/// Whether a character may stand in the value of a header field: any
/// character but the ASCII control characters, of which only the tab is
/// allowed.
pub open spec fn header_char_accepted(c: char) -> bool {
    (c as u32 >= 32 && c as u32 != 127) || c == '\t'
}

/// Whether `http::HeaderValue::try_from` accepts a text as the value of a
/// header field.
pub open spec fn header_value_accepted(text: Seq<char>) -> bool {
    forall|i: int| 0 <= i < text.len() ==> header_char_accepted(#[trigger] text[i])
}

/// `http::Uri::try_from` on a string slice, its error turned into an
/// `http::Error` as `http::request::Builder::uri` does. The parser reads the
/// bytes of the text and nothing else, so whether it succeeds is a property
/// of the text; the parsed value is dropped.
#[verifier::external_body]
pub(crate) fn parse_uri(text: &str) -> (r: Result<(), http::Error>)
    ensures
        r is Ok <==> uri_accepted(text@),
{
    match http::Uri::try_from(text) {
        Ok(_) => Ok(()),
        Err(e) => Err(http::Error::from(e)),
    }
}

/// `http::HeaderValue::try_from` on a string slice, its error turned into an
/// `http::Error` as `http::request::Builder::header` does. It fails exactly
/// when a byte of the text is below 32 and not a tab, or is 127; the bytes of
/// a character outside ASCII are all above 127. The parsed value is dropped.
#[verifier::external_body]
pub(crate) fn parse_header_value(text: &str) -> (r: Result<(), http::Error>)
    ensures
        r is Ok <==> header_value_accepted(text@),
{
    match http::HeaderValue::try_from(text) {
        Ok(_) => Ok(()),
        Err(e) => Err(http::Error::from(e)),
    }
}

impl Request {
    /// Assembles the request that carries `body` to `uri` under the two
    /// credentials.
    pub fn post_json(uri: String, client_id: &String, secret: &String, body: Vec<u8>) -> (r: Self)
        ensures
            r@ == post_json(uri@, client_id@, secret@, body@),
    {
        let mut headers: Vec<Header> = Vec::new();
        headers.push(
            Header {
                name: String::from_str("Content-Type"),
                value: String::from_str("application/json"),
            },
        );
        headers.push(Header { name: String::from_str("PLAID-CLIENT-ID"), value: client_id.clone() });
        headers.push(Header { name: String::from_str("PLAID-SECRET"), value: secret.clone() });
        let r = Request { method: Method::Post, uri, headers, body };
        assert(r@.headers =~= post_json(uri@, client_id@, secret@, body@).headers);
        r
    }

    /// Looks up the value of the first header field called `name`, whatever
    /// the case of its letters.
    pub fn header(&self, name: &str) -> (value: Option<&String>)
        ensures
            match value {
                Some(v) => self@.header(name@) == Some(v@),
                None => self@.header(name@) is None,
            },
    {
        let mut i: usize = 0;
        assert(self@.headers.skip(0) =~= self@.headers);
        while i < self.headers.len()
            invariant
                i <= self.headers.len(),
                first_header(self@.headers, name@) == first_header(
                    self@.headers.skip(i as int),
                    name@,
                ),
            decreases self.headers.len() - i,
        {
            let ghost rest = self@.headers.skip(i as int);
            assert(rest[0] == self.headers[i as int]@);
            assert(rest.drop_first() =~= self@.headers.skip(i + 1));
            if names_match(self.headers[i].name.as_str(), name) {
                return Some(&self.headers[i].value);
            }
            i += 1;
        }
        assert(self@.headers.skip(i as int).len() == 0);
        None
    }
}

fn fold(c: char) -> (code: u32)
    ensures
        code == folded(c),
{
    if 'A' <= c && c <= 'Z' {
        c as u32 + 32
    } else {
        c as u32
    }
}

/// Tells whether two texts name the same header field.
pub fn names_match(a: &str, b: &str) -> (same: bool)
    ensures
        same == same_name(a@, b@),
{
    let n = a.unicode_len();
    if n != b.unicode_len() {
        return false;
    }
    let mut i: usize = 0;
    while i < n
        invariant
            i <= n,
            n == a@.len(),
            n == b@.len(),
            forall|k: int| 0 <= k < i ==> folded(#[trigger] a@[k]) == folded(b@[k]),
        decreases n - i,
    {
        if fold(a.get_char(i)) != fold(b.get_char(i)) {
            return false;
        }
        i += 1;
    }
    true
}

} // verus!
