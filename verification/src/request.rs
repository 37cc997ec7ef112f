//! The request of a fetch: a GET of the caller's URL with one fixed header.

use reqwest::header::{HeaderMap, HeaderValue, USER_AGENT};
use vstd::prelude::*;

verus! {

/// `reqwest::header::HeaderMap`, opaque to the verifier. What a map holds is
/// spoken of through [`header_entries`].
#[verifier::external_type_specification]
#[verifier::external_body]
#[verifier::reject_recursive_types(T)]
pub struct ExHeaderMap<T>(reqwest::header::HeaderMap<T>);

/// `reqwest::header::HeaderValue`, opaque to the verifier.
#[verifier::external_type_specification]
#[verifier::external_body]
pub struct ExHeaderValue(reqwest::header::HeaderValue);

/// The headers of a request as mathematics: each header name, in lower case,
/// with the values sent under it, in order, as bytes.
pub type Headers = Map<Seq<char>, Seq<Seq<u8>>>;

/// What a `HeaderMap` holds.
pub uninterp spec fn header_entries(map: HeaderMap<HeaderValue>) -> Headers;

/// No header at all.
pub open spec fn no_headers() -> Headers {
    Map::empty()
}

/// A `HeaderMap` that holds fewer names than this takes one more. (It grows
/// to 32768 slots at most, and while under a fifth of them are taken it never
/// gives up.)
pub open spec fn header_room() -> nat {
    6553
}

/// The text sent as `User-Agent`: that of a common desktop browser.
pub const BROWSER_USER_AGENT: &'static str =
    "Mozilla/5.0 (Windows NT 10.0; Win64; x64) AppleWebKit/537.36 (KHTML, like Gecko) Chrome/91.0.4472.124 Safari/537.36";

/// Every character is a printable ASCII character, the space included.
pub open spec fn is_printable(text: Seq<char>) -> bool {
    forall|i: int| 0 <= i < text.len() ==> ' ' <= #[trigger] text[i] <= '~'
}

/// The bytes of a text of ASCII characters.
pub open spec fn ascii_bytes(text: Seq<char>) -> Seq<u8> {
    Seq::new(text.len(), |i: int| text[i] as u8)
}

/// The one header set that every fetch sends: `User-Agent`, once, with the
/// browser's text. Nothing else is set.
pub open spec fn browser_headers() -> Headers {
    no_headers().insert(
        "user-agent"@,
        seq![ascii_bytes(BROWSER_USER_AGENT@)],
    )
}

/// `HeaderMap::new`: a map that holds nothing.
#[verifier::external_body]
fn empty_headers() -> (headers: HeaderMap<HeaderValue>)
    ensures
        header_entries(headers) == no_headers(),
{
    HeaderMap::new()
}

/// `HeaderMap::insert` under the name `reqwest::header::USER_AGENT`, with
/// `HeaderValue::from_static` making the value. The constant's name is
/// `user-agent`; `from_static` takes printable ASCII and keeps its bytes;
/// `insert` puts the value in place of whatever the name held, and leaves the
/// other names alone. Both panic outside the `requires`.
#[verifier::external_body]
fn set_user_agent(map: &mut HeaderMap<HeaderValue>, text: &'static str)
    requires
        is_printable(text@),
        header_entries(*old(map)).dom().finite(),
        header_entries(*old(map)).dom().len() < header_room(),
    ensures
        header_entries(*final(map)) == header_entries(*old(map)).insert(
            "user-agent"@,
            seq![ascii_bytes(text@)],
        ),
{
    map.insert(USER_AGENT, HeaderValue::from_static(text));
}

/// What is sent: a GET of `url` carrying `headers`.
#[derive(Debug, PartialEq, Eq)]
pub struct FetchRequest {
    pub url: String,
    pub headers: HeaderMap<HeaderValue>,
}

/// A request as mathematics.
pub struct RequestView {
    pub url: Seq<char>,
    pub headers: Headers,
}

impl View for FetchRequest {
    type V = RequestView;

    open spec fn view(&self) -> RequestView {
        RequestView { url: self.url@, headers: header_entries(self.headers) }
    }
}

/// The request that a fetch of `url` sends.
pub open spec fn request_for(url: Seq<char>) -> RequestView {
    RequestView { url, headers: browser_headers() }
}

/// The browser's text is printable, so it can stand in a header.
pub proof fn lemma_user_agent_is_printable()
    ensures
        is_printable(BROWSER_USER_AGENT@),
        BROWSER_USER_AGENT@.len() == 115,
{
    reveal_strlit(
        "Mozilla/5.0 (Windows NT 10.0; Win64; x64) AppleWebKit/537.36 (KHTML, like Gecko) Chrome/91.0.4472.124 Safari/537.36",
    );
}

impl FetchRequest {
    /// Builds the request for `url`. The URL is taken as it is: whether it is
    /// one is for the client to say when it sends.
    pub fn new(url: String) -> (request: FetchRequest)
        ensures
            request@ == request_for(url@),
    {
        let mut headers = empty_headers();
        proof {
            lemma_user_agent_is_printable();
        }
        set_user_agent(&mut headers, BROWSER_USER_AGENT);
        FetchRequest { url, headers }
    }
}

/// Every request carries the browser's `User-Agent`, once, and no other
/// header, whatever the URL; and it targets the URL it was made for.
pub proof fn lemma_request_carries_only_the_user_agent(url: Seq<char>)
    ensures
        request_for(url).url == url,
        request_for(url).headers.dom() =~= set!["user-agent"@],
        request_for(url).headers["user-agent"@] == seq![ascii_bytes(BROWSER_USER_AGENT@)],
        request_for(url).headers["user-agent"@][0].len() == 115,
{
    lemma_user_agent_is_printable();
}

} // verus!
