use vstd::prelude::*;

verus! {

/// The path answered directly by the proxy, without contacting the upstream.
pub const HEALTH_PATH: &'static str = "/healthz";

/// Default bound on the number of network attempts per incoming request.
pub const MAX_RETRIES: u32 = 3;

/// The largest attempt bound for which every backoff delay fits in a `u64`
/// of milliseconds.
pub const MAX_RETRY_LIMIT: u32 = 55;

/// Deadline of a single upstream attempt, in seconds.
pub const REQUEST_TIMEOUT_SECS: u64 = 30;

/// How long the process stays alive once draining has begun, in seconds.
pub const GRACEFUL_SHUTDOWN_SECS: u64 = 30;

/// The port the listener binds on every interface.
pub const LISTEN_PORT: u16 = 8092;

pub const STATUS_OK: u16 = 200;
pub const STATUS_BAD_REQUEST: u16 = 400;
pub const STATUS_INTERNAL_SERVER_ERROR: u16 = 500;
pub const STATUS_BAD_GATEWAY: u16 = 502;
pub const STATUS_SERVICE_UNAVAILABLE: u16 = 503;
pub const STATUS_GATEWAY_TIMEOUT: u16 = 504;

/// How the upstream's certificate is checked.
pub enum TrustPolicy {
    /// The platform's trusted roots.
    SystemRoots,
    /// The roots in the PEM file at `path`.
    CustomCa { path: String },
    /// No check at all: only for testing, and only on explicit request.
    InsecureTestOnly,
}

/// Picks the trust policy from the startup settings: the insecure policy only
/// when it is asked for explicitly, else a custom CA file when one is named,
/// else the system roots.
pub fn select_trust_policy(ca_path: Option<String>, insecure_opt_in: bool) -> (r: TrustPolicy)
    ensures
        insecure_opt_in ==> r is InsecureTestOnly,
        !insecure_opt_in && ca_path is Some ==> (r matches TrustPolicy::CustomCa { path } && path@
            == ca_path->0@),
        !insecure_opt_in && ca_path is None ==> r is SystemRoots,
{
    if insecure_opt_in {
        TrustPolicy::InsecureTestOnly
    } else {
        match ca_path {
            Some(path) => TrustPolicy::CustomCa { path },
            None => TrustPolicy::SystemRoots,
        }
    }
}

impl TrustPolicy {
    /// Whether starting with this policy must be announced loudly.
    pub fn needs_warning(&self) -> (r: bool)
        ensures
            r == (self is InsecureTestOnly),
    {
        match self {
            TrustPolicy::InsecureTestOnly => true,
            _ => false,
        }
    }
}

} // verus!
