//! The delivery service as the client sees it: where each request goes and
//! what each reply means. The HTTP exchange itself, the TLS encoding of
//! request bodies, and the decoding of MLS values in replies are the
//! driver's.
use vstd::prelude::*;
use crate::bindings::{
    base64_url_safe, is_plain_path, lemma_base64_plain, path_bytes, decode_byte_strings, encode_url_safe, parse_url, set_url_path,
    url_parse, url_with_path,
};
use crate::framing::{client_list, has_reserved_prefix, lemma_reserved_client_list};
use crate::text::{concat2, text};

verus! {

/// The delivery service that the client uses unless told otherwise.
pub const DEFAULT_DS_URL: &'static str = "http://localhost:8080";

/// The longest delivery-service URL, in characters, that a backend takes.
pub const MAX_URL_LEN: usize = 0x0800_0000;

/// The most bytes that a request URL is built to: `url::Url::set_path`
/// keeps the serialization within `u32::MAX` bytes, and this leaves room
/// for the separators that parsing adds.
pub const URL_BYTE_LIMIT: usize = 0xFFFF_0000;

/// Whether the path for a client identity of `identity_len` bytes fits
/// with the URL `url`: twelve bytes at most per character of the URL, and
/// one per character of the path (a plain prefix of at most 64 characters,
/// a leading `/`, and the identity's base64 encoding, four characters per
/// three bytes started).
pub open spec fn identity_fits(url: Seq<char>, identity_len: nat) -> bool {
    12 * url.len() + 65 + 4 * ((identity_len + 2) / 3) <= URL_BYTE_LIMIT
}

/// How a request is sent.
#[derive(Clone, Copy, Debug, PartialEq, Eq, Structural)]
pub enum Method {
    /// An HTTP `GET` without a body.
    Get,
    /// An HTTP `POST` whose body is the TLS encoding of a message.
    Post,
    /// An HTTP `GET` whose body is the TLS encoding of a message.
    GetWithBody,
}

/// A request to the delivery service, without its body.
#[derive(Clone, Debug, PartialEq, Eq)]
pub struct Request {
    pub method: Method,
    pub url: String,
}

/// A client of one delivery service.
pub struct Backend {
    ds_url: String,
    url_chars: usize,
}

/// The request that `method` on the path `path` of the service at `url`
/// is, with `r` its value.
pub open spec fn is_request(r: Request, method: Method, url: Seq<char>, path: Seq<char>) -> bool {
    &&& r.method == method
    &&& url_with_path(url, path) == Some(r.url@)
}

/// The path of a resource of one client: `prefix` and the URL-safe base64
/// encoding of the client's identity.
pub open spec fn client_path(prefix: Seq<char>, identity: Seq<u8>) -> Seq<char> {
    prefix + base64_url_safe(identity)
}

/// The bytes of `alive!`, the reply of a healthy delivery service.
pub open spec fn alive() -> Seq<u8> {
    seq![0x61u8, 0x6cu8, 0x69u8, 0x76u8, 0x65u8, 0x21u8]
}

/// The refusal of a request that needs a registered client.
pub open spec fn unregistered_error() -> Seq<char> {
    "Please register user before publishing key packages"@
}

impl Backend {
    /// The URL of the delivery service, as given.
    pub closed spec fn url(&self) -> Seq<char> {
        self.ds_url@
    }

    #[verifier::type_invariant]
    closed spec fn well_formed(&self) -> bool {
        &&& url_parse(self.ds_url@) is Some
        &&& self.ds_url@.len() <= MAX_URL_LEN
        &&& self.url_chars == self.ds_url@.len()
    }

    /// A backend for the delivery service at `ds_url`; `None` when `ds_url`
    /// is no URL.
    pub fn new(ds_url: &str) -> (r: Option<Backend>)
        requires
            ds_url@.len() <= MAX_URL_LEN,
        ensures
            r is Some <==> url_parse(ds_url@) is Some,
            r matches Some(b) ==> b.url() == ds_url@,
    {
        match parse_url(ds_url) {
            Some(_) => Some(Backend { ds_url: text(ds_url), url_chars: ds_url.unicode_len() }),
            None => None,
        }
    }

    /// Whether an identity of `identity_len` bytes fits in a request path.
    pub fn fits_identity(&self, identity_len: usize) -> (r: bool)
        ensures
            r == identity_fits(self.url(), identity_len as nat),
    {
        proof {
            use_type_invariant(self);
        }
        if identity_len > URL_BYTE_LIMIT {
            return false;
        }
        let url_bytes: u64 = 12 * (self.url_chars as u64);
        let encoded: u64 = 4 * ((identity_len as u64 + 2) / 3);
        url_bytes + 65 + encoded <= URL_BYTE_LIMIT as u64
    }

    fn endpoint(&self, method: Method, path: &str) -> (r: Request)
        requires
            12 * self.url().len() + path_bytes(path@) <= URL_BYTE_LIMIT,
        ensures
            is_request(r, method, self.url(), path@),
    {
        proof {
            use_type_invariant(self);
        }
        let url = set_url_path(self.ds_url.as_str(), path).unwrap();
        Request { method, url }
    }

    fn client_endpoint(&self, method: Method, prefix: &str, identity: &[u8]) -> (r: Request)
        requires
            prefix@.len() <= 64,
            is_plain_path(prefix@),
            identity_fits(self.url(), identity@.len()),
        ensures
            is_request(r, method, self.url(), client_path(prefix@, identity@)),
    {
        proof {
            crate::bindings::lemma_base64_len(identity@);
            lemma_base64_plain(identity@);
        }
        let encoded = encode_url_safe(identity);
        let path = resource_path(prefix, encoded.as_str());
        proof {
            assert forall|i: int| 0 <= i < path@.len() implies crate::bindings::is_plain_path_char(
                #[trigger] path@[i],
            ) by {
                if i >= prefix@.len() {
                    assert(path@[i] == encoded@[i - prefix@.len()]);
                } else {
                    assert(path@[i] == prefix@[i]);
                }
            }
        }
        self.endpoint(method, path.as_str())
    }

    /// The health check: `GET /health`.
    pub fn health_check(&self) -> (r: Request)
        ensures
            is_request(r, Method::Get, self.url(), "/health"@),
    {
        proof {
            reveal_strlit("/health");
            use_type_invariant(self);
        }
        self.endpoint(Method::Get, "/health")
    }

    /// The registration of a client with its key packages:
    /// `POST /clients/register`.
    pub fn register_client(&self) -> (r: Request)
        ensures
            is_request(r, Method::Post, self.url(), "/clients/register"@),
    {
        proof {
            reveal_strlit("/clients/register");
            use_type_invariant(self);
        }
        self.endpoint(Method::Post, "/clients/register")
    }

    /// The list of all clients: `GET /clients/list`.
    pub fn list_clients(&self) -> (r: Request)
        ensures
            is_request(r, Method::Get, self.url(), "/clients/list"@),
    {
        proof {
            reveal_strlit("/clients/list");
            use_type_invariant(self);
        }
        self.endpoint(Method::Get, "/clients/list")
    }

    /// Getting and reserving a key package of the client `client_id`:
    /// `GET /clients/key_package/{base64url(client_id)}`.
    pub fn consume_key_package(&self, client_id: &[u8]) -> (r: Request)
        requires
            identity_fits(self.url(), client_id@.len()),
        ensures
            is_request(
                r,
                Method::Get,
                self.url(),
                client_path("/clients/key_package/"@, client_id@),
            ),
    {
        proof {
            reveal_strlit("/clients/key_package/");
        }
        self.client_endpoint(Method::Get, "/clients/key_package/", client_id)
    }

    /// Publishing more key packages of the client `identity`:
    /// `POST /clients/key_packages/{base64url(identity)}`, refused when the
    /// client has not registered.
    pub fn publish_key_packages(&self, registered: bool, identity: &[u8]) -> (r: Result<
        Request,
        String,
    >)
        requires
            registered ==> identity_fits(self.url(), identity@.len()),
        ensures
            r is Ok <==> registered,
            r matches Ok(q) ==> is_request(
                q,
                Method::Post,
                self.url(),
                client_path("/clients/key_packages/"@, identity@),
            ),
            r matches Err(e) ==> e@ == unregistered_error(),
    {
        if !registered {
            return Err(text("Please register user before publishing key packages"));
        }
        proof {
            reveal_strlit("/clients/key_packages/");
        }
        Ok(self.client_endpoint(Method::Post, "/clients/key_packages/", identity))
    }

    /// Sending a welcome message: `POST /send/welcome`.
    pub fn send_welcome(&self) -> (r: Request)
        ensures
            is_request(r, Method::Post, self.url(), "/send/welcome"@),
    {
        proof {
            reveal_strlit("/send/welcome");
            use_type_invariant(self);
        }
        self.endpoint(Method::Post, "/send/welcome")
    }

    /// Sending a group message: `POST /send/message`.
    pub fn send_msg(&self) -> (r: Request)
        ensures
            is_request(r, Method::Post, self.url(), "/send/message"@),
    {
        proof {
            reveal_strlit("/send/message");
            use_type_invariant(self);
        }
        self.endpoint(Method::Post, "/send/message")
    }

    /// Fetching the new messages of the client `identity`:
    /// `GET /recv/{base64url(identity)}` with a body, refused when the client
    /// has not registered.
    pub fn recv_msgs(&self, registered: bool, identity: &[u8]) -> (r: Result<Request, String>)
        requires
            registered ==> identity_fits(self.url(), identity@.len()),
        ensures
            r is Ok <==> registered,
            r matches Ok(q) ==> is_request(
                q,
                Method::GetWithBody,
                self.url(),
                client_path("/recv/"@, identity@),
            ),
            r matches Err(e) ==> e@ == unregistered_error(),
    {
        if !registered {
            return Err(text("Please register user before publishing key packages"));
        }
        proof {
            reveal_strlit("/recv/");
        }
        Ok(self.client_endpoint(Method::GetWithBody, "/recv/", identity))
    }

    /// Resetting the delivery service: `GET` on the path `reset`.
    pub fn reset_server(&self) -> (r: Request)
        ensures
            is_request(r, Method::Get, self.url(), "reset"@),
    {
        proof {
            reveal_strlit("reset");
            use_type_invariant(self);
        }
        self.endpoint(Method::Get, "reset")
    }
}

/// The path of a resource of one client, from the encoding of its
/// identity: `prefix` followed by `encoded_identity`.
pub fn resource_path(prefix: &str, encoded_identity: &str) -> (r: String)
    ensures
        r@ == prefix@ + encoded_identity@,
{
    concat2(prefix, encoded_identity)
}

/// The verdict on the reply to a health check: healthy exactly when the
/// reply is `alive!`.
pub fn health_check_response(response: &[u8]) -> (r: Result<(), String>)
    ensures
        r is Ok <==> response@ == alive(),
        r matches Err(e) ==> e@ == "Health check failed"@,
{
    if response.len() == 6 && response[0] == 0x61u8 && response[1] == 0x6cu8 && response[2]
        == 0x69u8 && response[3] == 0x76u8 && response[4] == 0x65u8 && response[5] == 0x21u8 {
        assert(response@ =~= alive());
        Ok(())
    } else {
        assert(response@ != alive()) by {
            if response@ == alive() {
                assert(response@[0] == 0x61u8);
            }
        }
        Err(text("Health check failed"))
    }
}

/// The verdict of a health check from the outcome of its exchange: a
/// failed exchange gives its error; a reply is judged by
/// `health_check_response`.
pub fn health_check_reply(exchange: Result<Vec<u8>, String>) -> (r: Result<(), String>)
    ensures
        exchange matches Err(e) ==> (r matches Err(f) && f == e),
        exchange matches Ok(b) ==> (r is Ok <==> b@ == alive()),
        exchange matches Ok(b) && b@ != alive() ==> (r matches Err(f) && f@
            == "Health check failed"@),
{
    match exchange {
        Err(e) => Err(e),
        Ok(b) => health_check_response(b.as_slice()),
    }
}

/// The client list from the outcome of its exchange: a failed exchange
/// gives its error; a reply is read by `list_clients_response`.
pub fn list_clients_reply(exchange: Result<Vec<u8>, String>) -> (r: Result<Vec<Vec<u8>>, String>)
    ensures
        exchange matches Err(e) ==> (r matches Err(f) && f == e),
        exchange matches Ok(b) && client_list(b@) is Ok ==> (r matches Ok(w) && w@.map_values(
            |x: Vec<u8>| x@,
        ) == client_list(exchange->Ok_0@)->Ok_0),
        exchange matches Ok(b) && client_list(b@) is Err ==> (r matches Err(f) && f@
            == "Error decoding server response: "@ + client_list(exchange->Ok_0@)->Err_0),
{
    match exchange {
        Err(e) => Err(e),
        Ok(b) => list_clients_response(b.as_slice()),
    }
}

/// The key package from the outcome of its exchange and of decoding the
/// reply: a failed exchange gives its error, a decoding error (as debug
/// text) is prefixed with `Error decoding server response: `.
pub fn consume_key_package_reply<T>(reply: Result<Result<T, String>, String>) -> (r: Result<
    T,
    String,
>)
    ensures
        reply matches Err(e) ==> (r matches Err(f) && f == e),
        reply matches Ok(Ok(x)) ==> (r matches Ok(y) && y == x),
        reply matches Ok(Err(d)) ==> (r matches Err(f) && f@ == "Error decoding server response: "@
            + d@),
{
    match reply {
        Err(e) => Err(e),
        Ok(decoded) => in_decoding_context(decoded),
    }
}

/// The new messages from the outcome of their exchange and of decoding the
/// reply: a failed exchange gives its error, a decoding error (as debug
/// text) is prefixed with `Invalid message list: `.
pub fn recv_msgs_reply<T>(reply: Result<Result<T, String>, String>) -> (r: Result<T, String>)
    ensures
        reply matches Err(e) ==> (r matches Err(f) && f == e),
        reply matches Ok(Ok(x)) ==> (r matches Ok(y) && y == x),
        reply matches Ok(Err(d)) ==> (r matches Err(f) && f@ == "Invalid message list: "@ + d@),
{
    match reply {
        Err(e) => Err(e),
        Ok(decoded) => in_message_list_context(decoded),
    }
}

/// A decoded reply, its decoding error (as debug text) prefixed with
/// `Error decoding server response: `.
pub fn in_decoding_context<T>(decoded: Result<T, String>) -> (r: Result<T, String>)
    ensures
        decoded matches Ok(x) ==> r matches Ok(y) && y == x,
        decoded matches Err(e) ==> r matches Err(f) && f@ == "Error decoding server response: "@
            + e@,
{
    match decoded {
        Ok(x) => Ok(x),
        Err(e) => Err(concat2("Error decoding server response: ", e.as_str())),
    }
}

/// A decoded message list, its decoding error (as debug text) prefixed with
/// `Invalid message list: `.
pub fn in_message_list_context<T>(decoded: Result<T, String>) -> (r: Result<T, String>)
    ensures
        decoded matches Ok(x) ==> r matches Ok(y) && y == x,
        decoded matches Err(e) ==> r matches Err(f) && f@ == "Invalid message list: "@ + e@,
{
    match decoded {
        Ok(x) => Ok(x),
        Err(e) => Err(concat2("Invalid message list: ", e.as_str())),
    }
}

/// The clients listed in the reply to `list_clients`: the byte strings of
/// a TLS vector with a 32-bit length (`client_list`). A reply whose reading
/// meets a reserved length prefix is refused as `InvalidVectorLength`, the
/// error that `tls_codec` gives for it when built without debug assertions;
/// the decoder itself is not called on it, since with debug assertions it
/// stops there.
pub fn list_clients_response(response: &[u8]) -> (r: Result<Vec<Vec<u8>>, String>)
    ensures
        client_list(response@) matches Ok(v) ==> (r matches Ok(w) && w@.map_values(
            |x: Vec<u8>| x@,
        ) == v),
        client_list(response@) matches Err(e) ==> (r matches Err(f) && f@
            == "Error decoding server response: "@ + e),
{
    if has_reserved_prefix(response) {
        proof {
            lemma_reserved_client_list(response@);
        }
        return in_decoding_context(Err(text("InvalidVectorLength")));
    }
    in_decoding_context(decode_byte_strings(response))
}

} // verus!
