//! Client side of the cloud backend's API: the base URL, the three
//! endpoints, the JSON body of a session request, and the decisions made
//! on a response (status check, body assembly). The HTTP transport and the
//! JSON decoding of responses live in the application.

use vstd::prelude::*;
use vstd::string::{StrSliceExecFns, StringExecFns};

verus! {

#[verifier::external_type_specification]
#[verifier::external_body]
pub struct ExJsonError(serde_json::Error);

/// `s` with every trailing '/' removed.
pub open spec fn trim_trailing_slashes(s: Seq<char>) -> Seq<char>
    decreases s.len(),
{
    if s.len() > 0 && s.last() == '/' {
        trim_trailing_slashes(s.drop_last())
    } else {
        s
    }
}

/// The bytes that `serde_json::to_vec` writes for the JSON object with the
/// one string entry `key: value`.
pub uninterp spec fn json_object_bytes(key: Seq<char>, value: Seq<char>) -> Seq<u8>;

/// Serialises the JSON object with the one string entry `key: value`.
///
/// Trusted: calls `serde_json::to_vec` on a `serde_json::Value` object
/// holding that entry. Its bytes are named `json_object_bytes`; the call
/// succeeds, since a `Value` object has string keys and a `Vec` writer
/// does not fail (the two failure causes the documentation lists).
#[verifier::external_body]
fn json_object_to_vec(key: &str, value: &str) -> (r: Result<Vec<u8>, serde_json::Error>)
    ensures
        r is Ok,
        r matches Ok(bytes) ==> bytes@ == json_object_bytes(key@, value@),
{
    let mut object = serde_json::Map::new();
    object.insert(key.to_string(), serde_json::Value::String(value.to_string()));
    serde_json::to_vec(&serde_json::Value::Object(object))
}

/// What went wrong in an exchange with the backend.
#[derive(Debug, Clone, Copy, PartialEq, Eq, Structural)]
pub enum ApiError {
    /// The backend answered with a status outside 200..300.
    Status(u16),
    /// The request body could not be encoded.
    Encode,
}

/// Whether an HTTP status means success.
pub open spec fn is_success(status: u16) -> bool {
    200 <= status < 300
}

/// Accepts a response status in 200..300 and refuses any other.
pub fn check_status(status: u16) -> (r: Result<(), ApiError>)
    ensures
        is_success(status) ==> r is Ok,
        !is_success(status) ==> r == Err::<(), ApiError>(ApiError::Status(status)),
{
    if 200 <= status && status < 300 {
        Ok(())
    } else {
        Err(ApiError::Status(status))
    }
}

/// One step of reading a response body: `buf[..n]` is what the last read
/// returned. Appends it to `body` and returns whether the body is complete
/// (a read of zero bytes ends it).
pub fn append_chunk(body: &mut Vec<u8>, buf: &[u8], n: usize) -> (done: bool)
    requires
        n <= buf@.len(),
    ensures
        done == (n == 0),
        final(body)@ == old(body)@ + buf@.subrange(0, n as int),
{
    if n == 0 {
        assert(buf@.subrange(0, 0) =~= Seq::<u8>::empty());
        assert(body@ + Seq::<u8>::empty() =~= body@);
        return true;
    }
    let mut i: usize = 0;
    while i < n
        invariant
            i <= n,
            n <= buf@.len(),
            body@ == old(body)@ + buf@.subrange(0, i as int),
        decreases n - i,
    {
        body.push(buf[i]);
        i += 1;
        assert(buf@.subrange(0, i as int) =~= buf@.subrange(0, (i - 1) as int).push(buf@[i - 1]));
        assert(body@ =~= old(body)@ + buf@.subrange(0, i as int));
    }
    false
}

/// The JSON body of a session request for `item_id`: the object whose one
/// entry `item_id` holds it.
pub fn session_body(item_id: &str) -> (r: Result<Vec<u8>, ApiError>)
    ensures
        r is Ok,
        r matches Ok(bytes) ==> bytes@ == json_object_bytes("item_id"@, item_id@),
{
    match json_object_to_vec("item_id", item_id) {
        Ok(bytes) => Ok(bytes),
        Err(_) => Err(ApiError::Encode),
    }
}

pub struct ApiClient {
    base_url: String,
}

impl View for ApiClient {
    type V = Seq<char>;

    /// The base URL, with no trailing '/'.
    closed spec fn view(&self) -> Seq<char> {
        self.base_url@
    }
}

impl ApiClient {
    /// A client for the backend at `base_url`; trailing slashes are
    /// dropped so the endpoint paths can be appended.
    pub fn new(base_url: &str) -> (r: Self)
        ensures
            r@ == trim_trailing_slashes(base_url@),
    {
        let ghost s = base_url@;
        let mut end: usize = base_url.unicode_len();
        proof {
            assert(s.subrange(0, end as int) =~= s);
        }
        while end > 0 && base_url.get_char(end - 1) == '/'
            invariant
                end <= s.len(),
                s == base_url@,
                trim_trailing_slashes(s.subrange(0, end as int)) == trim_trailing_slashes(s),
            decreases end,
        {
            proof {
                assert(s.subrange(0, end as int).drop_last() =~= s.subrange(0, end - 1));
            }
            end -= 1;
        }
        let trimmed = base_url.substring_char(0, end);
        proof {
            let t = s.subrange(0, end as int);
            if t.len() > 0 {
                assert(t.last() == s[end - 1]);
            }
            assert(trimmed@ == t);
        }
        Self { base_url: String::from_str(trimmed) }
    }

    /// The menu endpoint.
    pub fn menu_url(&self) -> (r: String)
        ensures
            r@ == self@ + "/api/menu"@,
    {
        self.base_url.clone().concat("/api/menu")
    }

    /// The endpoint that creates a payment session.
    pub fn session_url(&self) -> (r: String)
        ensures
            r@ == self@ + "/api/session"@,
    {
        self.base_url.clone().concat("/api/session")
    }

    /// The status endpoint of the session `session_id`.
    pub fn status_url(&self, session_id: &str) -> (r: String)
        ensures
            r@ == self@ + "/api/session/"@ + session_id@ + "/status"@,
    {
        self.base_url.clone().concat("/api/session/").concat(session_id).concat("/status")
    }
}

/// Trimming leaves no trailing '/' and removes nothing but slashes: the
/// trimmed URL followed by some slashes is the URL given.
pub proof fn lemma_trim_trailing_slashes(s: Seq<char>)
    ensures
        trim_trailing_slashes(s).len() > 0 ==> trim_trailing_slashes(s).last() != '/',
        trim_trailing_slashes(s).len() <= s.len(),
        trim_trailing_slashes(s) =~= s.subrange(0, trim_trailing_slashes(s).len() as int),
        forall|i: int|
            trim_trailing_slashes(s).len() <= i < s.len() ==> s[i] == '/',
        trim_trailing_slashes(trim_trailing_slashes(s)) == trim_trailing_slashes(s),
    decreases s.len(),
{
    if s.len() > 0 && s.last() == '/' {
        lemma_trim_trailing_slashes(s.drop_last());
        let t = trim_trailing_slashes(s.drop_last());
        assert(s.drop_last().subrange(0, t.len() as int) =~= s.subrange(0, t.len() as int));
        assert forall|i: int| t.len() <= i < s.len() implies s[i] == '/' by {
            if i < s.len() - 1 {
                assert(s.drop_last()[i] == s[i]);
            }
        }
    } else {
        assert(s.subrange(0, s.len() as int) =~= s);
    }
}

} // verus!
