use vstd::prelude::*;
use crate::config::{HEALTH_PATH, STATUS_INTERNAL_SERVER_ERROR, STATUS_OK, STATUS_SERVICE_UNAVAILABLE};

verus! {

/// A reply produced by the proxy itself: a status and a text body.
pub struct Reply {
    pub status: u16,
    pub body: String,
}

/// Where a request goes after the first look at it.
pub enum Route {
    /// Answer at once.
    Respond(Reply),
    /// Hand the request to the forwarding engine.
    Forward,
}

pub ghost enum RouteView {
    Respond { status: u16, body: Seq<char> },
    Forward,
}

impl View for Route {
    type V = RouteView;

    open spec fn view(&self) -> RouteView {
        match self {
            Route::Respond(r) => RouteView::Respond { status: r.status, body: r.body@ },
            Route::Forward => RouteView::Forward,
        }
    }
}

pub open spec fn health_path() -> Seq<char> {
    seq!['/', 'h', 'e', 'a', 'l', 't', 'h', 'z']
}

pub open spec fn ok_message() -> Seq<char> {
    seq!['O', 'K']
}

pub open spec fn draining_message() -> Seq<char> {
    seq![
        'S', 'e', 'r', 'v', 'e', 'r', ' ', 'i', 's', ' ', 's', 'h', 'u', 't', 't', 'i', 'n', 'g',
        ' ', 'd', 'o', 'w', 'n',
    ]
}

/// The routing rule: draining first, then the health check, then forwarding.
pub open spec fn route_spec(draining: bool, path: Seq<char>) -> RouteView {
    if draining {
        RouteView::Respond { status: 503, body: draining_message() }
    } else if path == health_path() {
        RouteView::Respond { status: 200, body: ok_message() }
    } else {
        RouteView::Forward
    }
}

/// Tells whether two texts are equal, character by character.
fn same_text(a: &str, b: &str) -> (r: bool)
    ensures
        r == (a@ == b@),
{
    let n = a.unicode_len();
    if n != b.unicode_len() {
        return false;
    }
    let mut i: usize = 0;
    while i < n
        invariant
            n == a@.len() == b@.len(),
            i <= n,
            a@.subrange(0, i as int) == b@.subrange(0, i as int),
        decreases n - i,
    {
        if a.get_char(i) != b.get_char(i) {
            return false;
        }
        i = i + 1;
        assert(a@.subrange(0, i as int) =~= a@.subrange(0, i as int - 1).push(a@[i - 1]));
        assert(b@.subrange(0, i as int) =~= b@.subrange(0, i as int - 1).push(b@[i - 1]));
    }
    assert(a@ =~= a@.subrange(0, n as int));
    assert(b@ =~= b@.subrange(0, n as int));
    true
}

/// Decides what to do with a request for `path`, given whether the proxy is
/// draining: 503 while draining, whatever the path; otherwise 200 `OK` for the
/// health path; otherwise forward.
pub fn route(draining: bool, path: &str) -> (r: Route)
    ensures
        r@ == route_spec(draining, path@),
{
    proof {
        reveal_strlit("Server is shutting down");
        reveal_strlit("OK");
        reveal_strlit("/healthz");
    }
    if draining {
        let body = String::from_str("Server is shutting down");
        assert(body@ =~= draining_message());
        Route::Respond(Reply { status: STATUS_SERVICE_UNAVAILABLE, body })
    } else if same_text(path, HEALTH_PATH) {
        assert(HEALTH_PATH@ =~= health_path());
        let body = String::from_str("OK");
        assert(body@ =~= ok_message());
        Route::Respond(Reply { status: STATUS_OK, body })
    } else {
        assert(HEALTH_PATH@ =~= health_path());
        Route::Forward
    }
}

/// The reply for a failure that has no status of its own.
pub fn internal_error_reply() -> (r: Reply)
    ensures
        r.status == 500,
        r.body@ == crate::forward::internal_error_message(),
{
    proof {
        reveal_strlit("Internal Server Error");
    }
    let body = String::from_str("Internal Server Error");
    assert(body@ =~= crate::forward::internal_error_message());
    Reply { status: STATUS_INTERNAL_SERVER_ERROR, body }
}

/// While running, a request for the health path gets 200 with body `OK`.
pub proof fn lemma_health_check_while_running(path: Seq<char>)
    requires
        path == health_path(),
    ensures
        route_spec(false, path) == (RouteView::Respond { status: 200, body: ok_message() }),
{
}

/// While draining, every request gets 503, whatever its path.
pub proof fn lemma_draining_rejects_every_path(path: Seq<char>)
    ensures
        route_spec(true, path) is Respond,
        route_spec(true, path)->Respond_status == 503,
{
}

} // verus!
