//! The request handler as a state machine: each event (the request arrived, the
//! page was fetched, the rewrite pass ended) yields the next action to perform.
use crate::rules::PROXY_BASE;
use vstd::prelude::*;

verus! {

/// Why a request ends without the rewritten page.
#[derive(PartialEq, Eq, Structural, Clone, Copy, Debug)]
pub enum ProxyError {
    /// The `url` parameter is absent or empty.
    MissingParameter,
    /// The upstream page could not be fetched.
    UpstreamUnreachable,
    /// The rewrite pass exceeded its memory ceiling.
    ResourceLimitExceeded,
    /// The rewrite pass failed for another reason.
    RewriteFailed,
}

/// The HTTP status that answers each error.
pub open spec fn status_spec(e: ProxyError) -> u16 {
    match e {
        ProxyError::MissingParameter => 400,
        ProxyError::UpstreamUnreachable => 502,
        ProxyError::ResourceLimitExceeded => 500,
        ProxyError::RewriteFailed => 500,
    }
}

impl ProxyError {
    /// The HTTP status that answers this error.
    pub fn status(&self) -> (r: u16)
        ensures
            r == status_spec(*self),
    {
        match self {
            ProxyError::MissingParameter => 400,
            ProxyError::UpstreamUnreachable => 502,
            ProxyError::ResourceLimitExceeded => 500,
            ProxyError::RewriteFailed => 500,
        }
    }
}

/// The status of a successful response.
pub const STATUS_OK: u16 = 200;

/// The outbound request failed: a transport error, a failing status or a body
/// that could not be read.
#[derive(PartialEq, Eq, Structural, Clone, Copy, Debug)]
pub struct FetchFailure;

/// How the rewrite pass failed.
#[derive(PartialEq, Eq, Structural, Clone, Copy, Debug)]
pub enum RewriteFailure {
    /// The rewriter's memory ceiling was exceeded.
    MemoryLimitExceeded,
    /// Any other failure of the rewriter.
    Other,
}

/// What happened last in the handling of one request.
pub enum Event {
    /// A request arrived, with the value of its `url` parameter if it had one.
    Request { url: Option<String> },
    /// The outbound fetch ended.
    Fetched { body: Result<String, FetchFailure> },
    /// The rewrite pass ended, with the bytes it emitted.
    Rewritten { output: Result<Vec<u8>, RewriteFailure> },
}

/// What the host does next.
pub enum Action {
    /// Fetch the page at `url` with one GET.
    Fetch { url: String },
    /// Run the rewrite pass over `html`, routing links through `base`.
    Rewrite { html: String, base: String },
    /// Answer the client; an HTML page where `status` is 200.
    Respond { status: u16, body: String },
}

/// The text that lossy UTF-8 decoding makes of `bytes`: each invalid sequence
/// becomes U+FFFD.
pub uninterp spec fn utf8_lossy(bytes: Seq<u8>) -> Seq<char>;

/// Relies on `String::from_utf8_lossy`: decodes `bytes`, replacing invalid
/// sequences by U+FFFD.
#[verifier::external_body]
fn decode_lossy(bytes: &[u8]) -> (r: String)
    ensures
        r@ == utf8_lossy(bytes@),
        bytes@.len() == 0 ==> r@.len() == 0,
{
    String::from_utf8_lossy(bytes).into_owned()
}

/// The answer to a request that ends with `e`: its status and an empty body.
pub fn error_response(e: ProxyError) -> (r: Action)
    ensures
        r matches Action::Respond { status, body } && status == status_spec(e) && body@.len()
            == 0,
{
    Action::Respond { status: e.status(), body: String::new() }
}

/// The next step of the handler after `event`.
pub fn next_action(event: Event) -> (r: Action)
    ensures
        match event {
            Event::Request { url } => match url {
                Some(u) if u@.len() > 0 => r matches Action::Fetch { url: target } && target@
                    == u@,
                _ => r matches Action::Respond { status, body } && status == 400 && body@.len()
                    == 0,
            },
            Event::Fetched { body } => match body {
                Ok(html) => r matches Action::Rewrite { html: page, base } && page@ == html@
                    && base@ == PROXY_BASE@,
                Err(_) => r matches Action::Respond { status, body } && status == 502
                    && body@.len() == 0,
            },
            Event::Rewritten { output } => match output {
                Ok(bytes) => r matches Action::Respond { status, body } && status == 200
                    && body@ == utf8_lossy(bytes@),
                Err(_) => r matches Action::Respond { status, body } && status == 500
                    && body@.len() == 0,
            },
        },
{
    match event {
        Event::Request { url } => match url {
            Some(u) => {
                if u.as_str().unicode_len() > 0 {
                    Action::Fetch { url: u }
                } else {
                    error_response(ProxyError::MissingParameter)
                }
            },
            None => error_response(ProxyError::MissingParameter),
        },
        Event::Fetched { body } => match body {
            Ok(html) => Action::Rewrite { html, base: String::from_str(PROXY_BASE) },
            Err(_) => error_response(ProxyError::UpstreamUnreachable),
        },
        Event::Rewritten { output } => match output {
            Ok(bytes) => Action::Respond { status: STATUS_OK, body: decode_lossy(bytes.as_slice()) },
            Err(RewriteFailure::MemoryLimitExceeded) => error_response(
                ProxyError::ResourceLimitExceeded,
            ),
            Err(RewriteFailure::Other) => error_response(ProxyError::RewriteFailed),
        },
    }
}

} // verus!
