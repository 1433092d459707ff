//! One simulated service endpoint.
//!
//! A [`MockInstance`] owns a synthetic port, the service name derived from
//! it (`mock-<port>`), the registry base URL and the shared auth token.  It
//! is never mutated after construction; both of its requests are pure
//! functions of its fields, so repeating a call always produces an
//! identically-shaped request.

use vstd::prelude::*;
use vstd::string::StringExecFns;
use crate::decimal::dec_rep;
use crate::decimal::u32_to_dec;
use crate::registry::HeartbeatRequest;
use crate::registry::HeartbeatRequestV;
use crate::registry::RegisterRequest;
use crate::registry::RegisterRequestV;
use crate::registry::heartbeat_request;
use crate::registry::heartbeat_request_v;
use crate::registry::register_request;
use crate::registry::register_request_v;

verus! {

/// The service name derived from a port: `mock-<port>`.
pub open spec fn service_name_v(port: u32) -> Seq<char> {
    "mock-"@ + dec_rep(port as int)
}

/// One simulated endpoint: its port, derived service name, the registry it
/// belongs to and the token shared by the whole fleet.
#[derive(Clone)]
pub struct MockInstance {
    pub nacos: String,
    pub port: u32,
    pub service_name: String,
    pub token: String,
}

/// The mathematical value of a [`MockInstance`].
#[verifier::ext_equal]
pub ghost struct InstanceV {
    pub nacos: Seq<char>,
    pub port: u32,
    pub service_name: Seq<char>,
    pub token: Seq<char>,
}

impl View for MockInstance {
    type V = InstanceV;

    open spec fn view(&self) -> InstanceV {
        InstanceV {
            nacos: self.nacos@,
            port: self.port,
            service_name: self.service_name@,
            token: self.token@,
        }
    }
}

/// The registration call an instance issues.
pub open spec fn register_request_of(i: InstanceV) -> RegisterRequestV {
    register_request_v(i.nacos, i.port, i.service_name, i.token)
}

/// The heartbeat call an instance issues.
pub open spec fn heartbeat_request_of(i: InstanceV) -> HeartbeatRequestV {
    heartbeat_request_v(i.nacos, i.port, i.service_name, i.token)
}

impl MockInstance {
    /// A well-formed instance carries the service name derived from its
    /// port.
    pub open spec fn wf(&self) -> bool {
        self@.service_name == service_name_v(self@.port)
    }

    /// Builds the instance for `port`, deriving its service name.
    pub fn new(nacos: String, port: u32, token: String) -> (r: MockInstance)
        ensures
            r@.nacos == nacos@,
            r@.port == port,
            r@.service_name == service_name_v(port),
            r@.token == token@,
            r.wf(),
    {
        let mut service_name = "mock-".to_owned();
        service_name.append(u32_to_dec(port).as_str());
        MockInstance { nacos, port, service_name, token }
    }

    /// The registration call for this instance.
    pub fn register_request(&self) -> (r: RegisterRequest)
        ensures
            r@ == register_request_of(self@),
    {
        register_request(&self.nacos, self.port, &self.service_name, &self.token)
    }

    /// The heartbeat call for this instance.
    pub fn heartbeat_request(&self) -> (r: HeartbeatRequest)
        ensures
            r@ == heartbeat_request_of(self@),
    {
        heartbeat_request(&self.nacos, self.port, &self.service_name, &self.token)
    }
}

/// Law: heartbeats are idempotent at the instance.  The heartbeat request is
/// a function of the instance's fields alone, and issuing one mutates
/// nothing, so any two heartbeat calls made from the same instance state —
/// in particular, two calls in sequence — carry identically-shaped requests.
pub proof fn lemma_heartbeat_idempotent(a: InstanceV, b: InstanceV)
    requires
        a == b,
    ensures
        heartbeat_request_of(a) == heartbeat_request_of(b),
        register_request_of(a) == register_request_of(b),
{
}

} // verus!
