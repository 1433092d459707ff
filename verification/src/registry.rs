//! The registry's wire interface: the exact shape of each HTTP call.
//!
//! Three operations exist, each one round trip: login (POST to the auth
//! endpoint, form-encoded credentials), register (POST to the instance
//! endpoint, query parameters), heartbeat (PUT to the beat endpoint, query
//! parameters carrying a small JSON payload).  This module builds the
//! requests as plain data — URL plus key/value pairs — pinned down exactly
//! by the `*_v` specification functions; sending them is the unverified
//! shell's business.  The `accessToken` parameter is attached to register
//! and heartbeat calls exactly when the shared token is non-empty.

use vstd::prelude::*;
use vstd::string::StringExecFns;
use crate::decimal::dec_rep;
use crate::decimal::u32_to_dec;

verus! {

/// The login response body: the registry answers the login call with a JSON
/// object whose `accessToken` field this struct carries.  The empty string
/// is the sentinel for "no authentication".
pub struct LoginInfo {
    pub access_token: String,
}

/// Why a login failed: the request could not be sent, the registry answered
/// with a non-success status, or the body did not parse to a [`LoginInfo`].
/// Any of these aborts the whole run.
#[derive(Clone, Copy, Debug, PartialEq, Eq, Structural)]
pub enum AuthError {
    RequestFailed,
    NonSuccessStatus,
    UnparsableBody,
}

/// Why one instance's registration failed.  Never fatal: the run continues.
#[derive(Clone, Copy, Debug, PartialEq, Eq, Structural)]
pub enum RegistrationError {
    RequestFailed,
    NonSuccessStatus,
}

/// Why one heartbeat tick failed.  Never fatal: the next tick proceeds.
#[derive(Clone, Copy, Debug, PartialEq, Eq, Structural)]
pub enum HeartbeatError {
    RequestFailed,
    NonSuccessStatus,
}

/// A login call: POST `url` with `form` as the form-encoded body.
pub struct LoginRequest {
    pub url: String,
    pub form: Vec<(String, String)>,
}

/// A registration call: POST `url` with `query` as query parameters.
pub struct RegisterRequest {
    pub url: String,
    pub query: Vec<(String, String)>,
}

/// A heartbeat call: PUT `url` with `query` as query parameters.
pub struct HeartbeatRequest {
    pub url: String,
    pub query: Vec<(String, String)>,
}

/// The mathematical value of a key/value pair list.
pub open spec fn kv(q: Seq<(String, String)>) -> Seq<(Seq<char>, Seq<char>)> {
    q.map_values(|p: (String, String)| (p.0@, p.1@))
}

/// The mathematical value of a [`LoginRequest`].
#[verifier::ext_equal]
pub ghost struct LoginRequestV {
    pub url: Seq<char>,
    pub form: Seq<(Seq<char>, Seq<char>)>,
}

impl View for LoginRequest {
    type V = LoginRequestV;

    open spec fn view(&self) -> LoginRequestV {
        LoginRequestV { url: self.url@, form: kv(self.form@) }
    }
}

/// The mathematical value of a [`RegisterRequest`].
#[verifier::ext_equal]
pub ghost struct RegisterRequestV {
    pub url: Seq<char>,
    pub query: Seq<(Seq<char>, Seq<char>)>,
}

impl View for RegisterRequest {
    type V = RegisterRequestV;

    open spec fn view(&self) -> RegisterRequestV {
        RegisterRequestV { url: self.url@, query: kv(self.query@) }
    }
}

/// The mathematical value of a [`HeartbeatRequest`].
#[verifier::ext_equal]
pub ghost struct HeartbeatRequestV {
    pub url: Seq<char>,
    pub query: Seq<(Seq<char>, Seq<char>)>,
}

impl View for HeartbeatRequest {
    type V = HeartbeatRequestV;

    open spec fn view(&self) -> HeartbeatRequestV {
        HeartbeatRequestV { url: self.url@, query: kv(self.query@) }
    }
}

/// The login call for base URL `nacos` and the given credentials.
pub open spec fn login_request_v(nacos: Seq<char>, username: Seq<char>, password: Seq<char>) -> LoginRequestV {
    LoginRequestV {
        url: nacos + "/nacos/v1/auth/login"@,
        form: seq![("username"@, username), ("password"@, password)],
    }
}

/// The registration call for one instance.  `accessToken` appears exactly
/// when `token` is non-empty.
pub open spec fn register_request_v(nacos: Seq<char>, port: u32, service_name: Seq<char>, token: Seq<char>) -> RegisterRequestV {
    RegisterRequestV {
        url: nacos + "/nacos/v1/ns/instance"@,
        query: if token.len() == 0 {
            seq![
                ("port"@, dec_rep(port as int)),
                ("ip"@, "localhost"@),
                ("ephemeral"@, "true"@),
                ("serviceName"@, service_name),
            ]
        } else {
            seq![
                ("port"@, dec_rep(port as int)),
                ("ip"@, "localhost"@),
                ("accessToken"@, token),
                ("ephemeral"@, "true"@),
                ("serviceName"@, service_name),
            ]
        },
    }
}

/// The JSON beat payload carried by a heartbeat call.
pub open spec fn beat_json_v(port: u32, service_name: Seq<char>) -> Seq<char> {
    "{\"port\":"@ + dec_rep(port as int) + ",\"ip\":\"localhost\",\"serviceName\":\""@ + service_name
        + "\"}"@
}

/// The heartbeat call for one instance.  `accessToken` appears exactly when
/// `token` is non-empty.
pub open spec fn heartbeat_request_v(nacos: Seq<char>, port: u32, service_name: Seq<char>, token: Seq<char>) -> HeartbeatRequestV {
    HeartbeatRequestV {
        url: nacos + "/nacos/v1/ns/instance/beat"@,
        query: if token.len() == 0 {
            seq![("serviceName"@, service_name), ("beat"@, beat_json_v(port, service_name))]
        } else {
            seq![
                ("serviceName"@, service_name),
                ("beat"@, beat_json_v(port, service_name)),
                ("accessToken"@, token),
            ]
        },
    }
}

/// Builds the login call.
pub fn login_request(nacos: &String, username: &String, password: &String) -> (r: LoginRequest)
    ensures
        r@ == login_request_v(nacos@, username@, password@),
{
    let url = nacos.clone().concat("/nacos/v1/auth/login");
    let mut form: Vec<(String, String)> = Vec::new();
    form.push(("username".to_owned(), username.clone()));
    form.push(("password".to_owned(), password.clone()));
    let r = LoginRequest { url, form };
    proof {
        assert(r@ =~= login_request_v(nacos@, username@, password@));
    }
    r
}

/// Builds the registration call.
pub fn register_request(nacos: &String, port: u32, service_name: &String, token: &String) -> (r: RegisterRequest)
    ensures
        r@ == register_request_v(nacos@, port, service_name@, token@),
{
    let url = nacos.clone().concat("/nacos/v1/ns/instance");
    let mut query: Vec<(String, String)> = Vec::new();
    query.push(("port".to_owned(), u32_to_dec(port)));
    query.push(("ip".to_owned(), "localhost".to_owned()));
    if !token.as_str().is_empty() {
        query.push(("accessToken".to_owned(), token.clone()));
    }
    query.push(("ephemeral".to_owned(), "true".to_owned()));
    query.push(("serviceName".to_owned(), service_name.clone()));
    let r = RegisterRequest { url, query };
    proof {
        assert(r@ =~= register_request_v(nacos@, port, service_name@, token@));
    }
    r
}

/// Builds the heartbeat call.
pub fn heartbeat_request(nacos: &String, port: u32, service_name: &String, token: &String) -> (r: HeartbeatRequest)
    ensures
        r@ == heartbeat_request_v(nacos@, port, service_name@, token@),
{
    let url = nacos.clone().concat("/nacos/v1/ns/instance/beat");
    let mut beat = "{\"port\":".to_owned();
    beat.append(u32_to_dec(port).as_str());
    beat.append(",\"ip\":\"localhost\",\"serviceName\":\"");
    beat.append(service_name.as_str());
    beat.append("\"}");
    let mut query: Vec<(String, String)> = Vec::new();
    query.push(("serviceName".to_owned(), service_name.clone()));
    query.push(("beat".to_owned(), beat));
    if !token.as_str().is_empty() {
        query.push(("accessToken".to_owned(), token.clone()));
    }
    let r = HeartbeatRequest { url, query };
    proof {
        assert(r@ =~= heartbeat_request_v(nacos@, port, service_name@, token@));
    }
    r
}

} // verus!
