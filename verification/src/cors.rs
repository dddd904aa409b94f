//! The cross-origin boundary: the policy captured from the configuration
//! snapshot at construction time, and its application to a preflight.

use vstd::prelude::*;

verus! {

/// The cross-origin policy the route table is wrapped with.
pub struct CorsPolicy {
    /// The origins allowed to make cross-origin requests.
    pub origins: Vec<String>,
}

/// Whether the policy allows the given origin.
pub open spec fn origin_allowed(policy: CorsPolicy, origin: Seq<char>) -> bool {
    exists|i: int| 0 <= i < policy.origins@.len() && policy.origins@[i]@ == origin
}

/// The headers answering a preflight from an allowed origin.
pub struct PreflightReply {
    pub allow_origin: String,
    pub allow_methods: Vec<String>,
    pub allow_headers: Vec<String>,
}

/// Answers an OPTIONS preflight. An allowed origin is echoed back
/// verbatim as the allowed origin, GET, POST and OPTIONS are the allowed
/// methods, and content-type is among the allowed headers; an origin the
/// policy does not allow gets no CORS headers at all.
pub fn preflight(policy: &CorsPolicy, origin: &String) -> (r: Option<PreflightReply>)
    ensures
        (r is Some) == origin_allowed(*policy, origin@),
        r matches Some(h) ==> ({
            &&& h.allow_origin@ == origin@
            &&& h.allow_methods@.len() == 3
            &&& h.allow_methods@[0]@ == "GET"@
            &&& h.allow_methods@[1]@ == "POST"@
            &&& h.allow_methods@[2]@ == "OPTIONS"@
            &&& h.allow_headers@.len() == 1
            &&& h.allow_headers@[0]@ == "content-type"@
        }),
{
    let n = policy.origins.len();
    let mut i: usize = 0;
    let mut found = false;
    while i < n
        invariant
            n == policy.origins@.len(),
            0 <= i <= n,
            found ==> origin_allowed(*policy, origin@),
            !found ==> forall|j: int| 0 <= j < i ==> policy.origins@[j]@ != origin@,
        decreases n - i,
    {
        if *origin == policy.origins[i] {
            found = true;
        }
        i = i + 1;
    }
    if found {
        let mut allow_methods: Vec<String> = Vec::new();
        allow_methods.push(String::from_str("GET"));
        allow_methods.push(String::from_str("POST"));
        allow_methods.push(String::from_str("OPTIONS"));
        let mut allow_headers: Vec<String> = Vec::new();
        allow_headers.push(String::from_str("content-type"));
        Option::Some(PreflightReply { allow_origin: origin.clone(), allow_methods, allow_headers })
    } else {
        Option::None
    }
}

/// The configuration snapshot the factory reads once at construction.
pub struct Configuration {
    /// The address to bind, as host-and-port text.
    pub listen: String,
    /// The cross-origin policy, if one was configured.
    pub cors: Option<CorsPolicy>,
}

impl Configuration {
    /// The policy the routes are built with, captured from this
    /// snapshot once at construction time.
    pub fn into_policy(self) -> (p: CorsPolicy)
        ensures
            self.cors matches Some(c) ==> p == c,
            self.cors is None ==> p.origins@.len() == 0,
    {
        effective_cors(self.cors)
    }
}

/// The policy the routes are actually built with: the configured one
/// where there is one, otherwise the default that allows no
/// cross-origin caller.
pub fn effective_cors(cors: Option<CorsPolicy>) -> (p: CorsPolicy)
    ensures
        cors matches Some(c) ==> p == c,
        cors is None ==> p.origins@.len() == 0,
{
    match cors {
        Option::Some(c) => c,
        Option::None => CorsPolicy { origins: Vec::new() },
    }
}

} // verus!
