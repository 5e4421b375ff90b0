use vstd::prelude::*;
use crate::config::{STATUS_BAD_REQUEST, STATUS_INTERNAL_SERVER_ERROR};
use crate::headers::{
    forwarded_headers,
    forwarded_headers_spec,
    header_views,
    Header,
    HeaderView,
};
use crate::router::Reply;
use crate::uri::{forwarded_uri_spec, uri_accepts, UpstreamBase, UriError};

verus! {

/// A request as received, with its body read into memory once.
pub struct IncomingRequest {
    pub method: String,
    pub path: String,
    pub query: Option<String>,
    pub headers: Vec<Header>,
    pub body: Vec<u8>,
}

pub ghost struct IncomingView {
    pub method: Seq<char>,
    pub path: Seq<char>,
    pub query: Option<Seq<char>>,
    pub headers: Seq<HeaderView>,
    pub body: Seq<u8>,
}

impl View for IncomingRequest {
    type V = IncomingView;

    open spec fn view(&self) -> IncomingView {
        IncomingView {
            method: self.method@,
            path: self.path@,
            query: match self.query {
                Some(q) => Some(q@),
                None => None,
            },
            headers: header_views(self.headers@),
            body: self.body@,
        }
    }
}

/// The request sent upstream on an attempt.
pub struct ForwardedRequest {
    pub method: String,
    pub uri: String,
    pub headers: Vec<Header>,
    pub body: Vec<u8>,
}

pub ghost struct ForwardedView {
    pub method: Seq<char>,
    pub uri: Seq<char>,
    pub headers: Seq<HeaderView>,
    pub body: Seq<u8>,
}

impl View for ForwardedRequest {
    type V = ForwardedView;

    open spec fn view(&self) -> ForwardedView {
        ForwardedView {
            method: self.method@,
            uri: self.uri@,
            headers: header_views(self.headers@),
            body: self.body@,
        }
    }
}

/// Why a request is answered without being forwarded.
#[derive(Debug, PartialEq, Eq, Structural)]
pub enum ForwardError {
    /// The validation predicate rejected the request.
    Invalid,
    /// The forwarded URI could not be formed.
    UriConstruction,
}

/// The URI text a request is forwarded to.
pub open spec fn target_uri(req: IncomingView, base: UpstreamBase) -> Seq<char> {
    forwarded_uri_spec(base.scheme@, base.authority@, req.path, req.query)
}

/// The request sent upstream for `req`: same method and body, the rewritten
/// URI, and the headers without `host`.
pub open spec fn forwarded_spec(req: IncomingView, base: UpstreamBase) -> ForwardedView {
    ForwardedView {
        method: req.method,
        uri: target_uri(req, base),
        headers: forwarded_headers_spec(req.headers),
        body: req.body,
    }
}

/// The request sent upstream on attempt `attempt`: the same on every attempt.
pub open spec fn attempt_request(req: IncomingView, base: UpstreamBase, attempt: nat) -> ForwardedView {
    forwarded_spec(req, base)
}

/// The validation policy: it accepts every request.
pub fn is_valid_s3_request(req: &IncomingRequest) -> (r: bool)
    ensures
        r,
{
    true
}

impl ForwardError {
    /// The reply sent for this error: 400 for a rejected request, 500 when the
    /// forwarded URI cannot be formed.
    pub fn reply(&self) -> (r: Reply)
        ensures
            *self == ForwardError::Invalid ==> r.status == 400 && r.body@ == invalid_request_message(),
            *self == ForwardError::UriConstruction ==> r.status == 500 && r.body@
                == internal_error_message(),
    {
        proof {
            reveal_strlit("Invalid S3 request");
            reveal_strlit("Internal Server Error");
        }
        match self {
            ForwardError::Invalid => {
                let body = String::from_str("Invalid S3 request");
                assert(body@ =~= invalid_request_message());
                Reply { status: STATUS_BAD_REQUEST, body }
            },
            ForwardError::UriConstruction => {
                let body = String::from_str("Internal Server Error");
                assert(body@ =~= internal_error_message());
                Reply { status: STATUS_INTERNAL_SERVER_ERROR, body }
            },
        }
    }
}

pub open spec fn invalid_request_message() -> Seq<char> {
    seq!['I', 'n', 'v', 'a', 'l', 'i', 'd', ' ', 'S', '3', ' ', 'r', 'e', 'q', 'u', 'e', 's', 't']
}

pub open spec fn internal_error_message() -> Seq<char> {
    seq![
        'I', 'n', 't', 'e', 'r', 'n', 'a', 'l', ' ', 'S', 'e', 'r', 'v', 'e', 'r', ' ', 'E', 'r',
        'r', 'o', 'r',
    ]
}

/// Copies a byte buffer.
fn copy_bytes(b: &Vec<u8>) -> (r: Vec<u8>)
    ensures
        r@ == b@,
{
    let mut out: Vec<u8> = Vec::with_capacity(b.len());
    let mut i: usize = 0;
    while i < b.len()
        invariant
            i <= b.len(),
            out@ == b@.subrange(0, i as int),
        decreases b.len() - i,
    {
        out.push(b[i]);
        i = i + 1;
        assert(out@ =~= b@.subrange(0, i as int));
    }
    assert(b@.subrange(0, b.len() as int) =~= b@);
    out
}

/// Prepares the request sent upstream, once per incoming request. `accepted`
/// is the verdict of the validation predicate on `req`.
pub fn prepare_forward(req: &IncomingRequest, base: &UpstreamBase, accepted: bool) -> (r: Result<
    ForwardedRequest,
    ForwardError,
>)
    ensures
        !accepted ==> r == Err::<ForwardedRequest, _>(ForwardError::Invalid),
        accepted && !uri_accepts(target_uri(req@, *base)) ==> r == Err::<ForwardedRequest, _>(
            ForwardError::UriConstruction,
        ),
        accepted && uri_accepts(target_uri(req@, *base)) ==> (r matches Ok(f) && f@
            == forwarded_spec(req@, *base)),
{
    if !accepted {
        return Err(ForwardError::Invalid);
    }
    let query = match &req.query {
        Some(q) => Some(q.as_str()),
        None => None,
    };
    let uri = match base.construct_uri(req.path.as_str(), query) {
        Ok(u) => u,
        Err(UriError::UriConstruction) => {
            return Err(ForwardError::UriConstruction);
        },
    };
    Ok(
        ForwardedRequest {
            method: req.method.clone(),
            uri,
            headers: forwarded_headers(&req.headers),
            body: copy_bytes(&req.body),
        },
    )
}

impl ForwardedRequest {
    /// The copy handed to the transport for one attempt; the prepared request
    /// itself is never changed between attempts.
    pub fn for_attempt(&self) -> (r: ForwardedRequest)
        ensures
            r@ == self@,
    {
        let mut headers: Vec<Header> = Vec::new();
        let mut i: usize = 0;
        while i < self.headers.len()
            invariant
                i <= self.headers.len(),
                header_views(headers@) == header_views(self.headers@.subrange(0, i as int)),
            decreases self.headers.len() - i,
        {
            let ghost before = headers@;
            headers.push(crate::headers::copy_header(&self.headers[i]));
            assert(header_views(headers@) =~= header_views(before).push(self.headers@[i as int]@));
            assert(self.headers@.subrange(0, i as int + 1) =~= self.headers@.subrange(0, i as int).push(
                self.headers@[i as int],
            ));
            i = i + 1;
            assert(header_views(headers@) =~= header_views(self.headers@.subrange(0, i as int)));
        }
        assert(self.headers@.subrange(0, self.headers.len() as int) =~= self.headers@);
        ForwardedRequest {
            method: self.method.clone(),
            uri: self.uri.clone(),
            headers,
            body: copy_bytes(&self.body),
        }
    }
}

/// Every attempt for one incoming request carries the incoming body, byte for
/// byte: the bodies of any two attempts are equal.
pub proof fn lemma_same_body_on_every_attempt(
    req: IncomingView,
    base: UpstreamBase,
    a: nat,
    b: nat,
)
    ensures
        attempt_request(req, base, a).body == req.body,
        attempt_request(req, base, a).body == attempt_request(req, base, b).body,
{
}

} // verus!
