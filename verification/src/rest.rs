//! The REST transport's verified half: the one-shot authentication state
//! machine, the URLs of every REST call, and the multipart field plan.
//! The HTTP round trips themselves are the caller's; each one hands its
//! outcome back to the session.

use vstd::prelude::*;

use crate::config::SDKConfig;
use crate::error::SDKError;
use crate::query::{query_string_spec, build_query_string, QueryParam};

verus! {

/// How a socket registration is made through the REST interface.
#[derive(Clone, Copy, Debug, PartialEq, Eq, Structural)]
pub enum RegistrationType {
    HostClient,
    Lobby,
}

/// The wire name of a registration type.
pub open spec fn registration_type_text(r: RegistrationType) -> Seq<char> {
    match r {
        RegistrationType::HostClient => "hostclient"@,
        RegistrationType::Lobby => "lobby"@,
    }
}

/// Whether a session must authenticate before its next REST call.
#[derive(Clone, Copy, Debug, PartialEq, Eq, Structural)]
pub enum AuthStep {
    /// No round trip: the session is authenticated already, or does not
    /// use REST at all.
    Skip,
    /// One authentication round trip is owed before the call.
    Authenticate,
}

/// The REST session: the configuration and whether authentication has
/// succeeded. The flag only ever rises, so a session authenticates at
/// most once.
pub struct RestSession {
    pub config: SDKConfig,
    pub authenticated: bool,
}

/// The step a session takes before a REST call.
pub open spec fn auth_step_spec(s: RestSession) -> AuthStep {
    if s.config.use_rest && !s.authenticated {
        AuthStep::Authenticate
    } else {
        AuthStep::Skip
    }
}

/// The session after recording an authentication round trip's outcome:
/// success authenticates it, failure leaves it as it was.
pub open spec fn record_auth_spec(s: RestSession, ok: bool) -> RestSession {
    RestSession { authenticated: s.authenticated || ok, config: s.config }
}

impl RestSession {
    /// A fresh, unauthenticated session.
    pub fn new(config: SDKConfig) -> (r: RestSession)
        ensures
            r.config == config,
            !r.authenticated,
    {
        RestSession { config, authenticated: false }
    }

    /// The URL of the authentication round trip:
    /// `{base}/requests?password={secret}`.
    pub fn auth_url(&self) -> (r: String)
        ensures
            r@ == self.config.rest_base_url@ + "/"@ + "requests?password="@
                + self.config.password@,
    {
        let mut tail = String::from_str("requests?password=");
        tail.append(self.config.password.as_str());
        self.config.push_to_rest_url(tail.as_str())
    }

    /// What the session owes before its next REST call: exactly one
    /// authentication round trip while it uses REST and has never
    /// authenticated, and nothing at all otherwise.
    pub fn auth_step(&self) -> (r: AuthStep)
        ensures
            r == auth_step_spec(*self),
            r is Authenticate <==> self.config.use_rest && !self.authenticated,
    {
        if self.config.use_rest && !self.authenticated {
            AuthStep::Authenticate
        } else {
            AuthStep::Skip
        }
    }

    /// Whether an authentication response body grants access: the host
    /// answers with a boolean-parseable body, and anything but `true`
    /// (a parse failure included) denies.
    pub fn auth_granted(body: &str) -> (r: bool)
        ensures
            r == (body@ == "true"@),
    {
        let owned: String = body.to_owned();
        owned == String::from_str("true")
    }

    /// Record the outcome of the authentication round trip: success
    /// authenticates the session for good, failure is
    /// `UnAuthenticated` and changes nothing.
    pub fn record_auth(&mut self, ok: bool) -> (r: Result<(), SDKError>)
        ensures
            *final(self) == record_auth_spec(*old(self), ok),
            ok <==> r is Ok,
            !ok ==> r == Result::<(), SDKError>::Err(SDKError::UnAuthenticated),
    {
        if ok {
            self.authenticated = true;
            Ok(())
        } else {
            proof {
                assert(*self == record_auth_spec(*old(self), false));
            }
            Err(SDKError::UnAuthenticated)
        }
    }

    /// The URL of a query-form REST call: `{base}/{subdir}?{k=v&...}`,
    /// with the declared parameters in order.
    pub fn query_url(&self, subdir: &str, params: &Vec<QueryParam>) -> (r: String)
        ensures
            r@ == self.config.rest_base_url@ + "/"@ + subdir@ + query_string_spec(params@),
    {
        let mut url = self.config.push_to_rest_url(subdir);
        let qs = build_query_string(params);
        url.append(qs.as_str());
        url
    }

    /// The URL registering this client with the socket's lobby:
    /// `{sock_base}/register?key={}&host_key={}&reg_type={}`.
    pub fn register_socket_url(
        &self,
        key: &str,
        host_key: &str,
        reg_type: RegistrationType,
    ) -> (r: String)
        ensures
            r@ == self.config.sock_base_url@ + "/"@ + "register?key="@ + key@ + "&host_key="@
                + host_key@ + "&reg_type="@ + registration_type_text(reg_type),
    {
        let reg_str = match reg_type {
            RegistrationType::HostClient => "hostclient",
            RegistrationType::Lobby => "lobby",
        };
        let mut tail = String::from_str("register?key=");
        tail.append(key);
        tail.append("&host_key=");
        tail.append(host_key);
        tail.append("&reg_type=");
        tail.append(reg_str);
        self.config.push_to_sock_url(tail.as_str())
    }

    /// The URL removing a socket registration:
    /// `{sock_base}/remove?id={}&key={}&host_key={}`.
    pub fn remove_registration_url(&self, id: &str, key: &str, host_key: &str) -> (r: String)
        ensures
            r@ == self.config.sock_base_url@ + "/"@ + "remove?id="@ + id@ + "&key="@ + key@
                + "&host_key="@ + host_key@,
    {
        let mut tail = String::from_str("remove?id=");
        tail.append(id);
        tail.append("&key=");
        tail.append(key);
        tail.append("&host_key=");
        tail.append(host_key);
        self.config.push_to_sock_url(tail.as_str())
    }
}

/// A text field of a multipart POST.
pub struct TextField {
    pub name: String,
    pub value: String,
}

/// A declared multipart parameter and the text supplied for it, absent
/// when an optional parameter was not given.
pub struct FieldParam {
    pub name: String,
    pub value: Option<String>,
}

/// The text fields present among the declared parameters, in declared
/// order: an absent optional contributes nothing.
pub open spec fn present_fields(ps: Seq<FieldParam>) -> Seq<TextField>
    decreases ps.len(),
{
    if ps.len() == 0 {
        Seq::empty()
    } else {
        let rest = present_fields(ps.drop_last());
        match ps.last().value {
            Some(v) => rest.push(TextField { name: ps.last().name, value: v }),
            None => rest,
        }
    }
}

/// Assemble the text fields of a multipart POST: every non-file parameter
/// that was supplied, under its name, in declared order.
pub fn build_multipart_fields(params: Vec<FieldParam>) -> (r: Vec<TextField>)
    ensures
        r@ == present_fields(params@),
{
    let ghost ps = params@;
    let mut params = params;
    let mut out: Vec<TextField> = Vec::new();
    let ghost mut k: int = 0;
    proof {
        assert(ps.take(0) =~= Seq::<FieldParam>::empty());
    }
    while params.len() > 0
        invariant
            0 <= k <= ps.len(),
            params@ =~= ps.skip(k),
            out@ == present_fields(ps.take(k)),
        decreases params@.len(),
    {
        let p = params.remove(0);
        proof {
            assert(p == ps[k]);
            assert(ps.take(k + 1).drop_last() =~= ps.take(k));
            assert(ps.take(k + 1).last() == ps[k]);
            assert(params@ =~= ps.skip(k + 1));
        }
        match p.value {
            Some(v) => {
                out.push(TextField { name: p.name, value: v });
            },
            None => {},
        }
        proof {
            k = k + 1;
        }
    }
    proof {
        assert(ps.take(k) =~= ps);
    }
    out
}

/// Law: a session authenticates at most once. An authentication round
/// trip is only ever owed by a session that has never authenticated;
/// recording a success authenticates it; and no later recorded outcome
/// takes that away, so every later REST call proceeds without one.
pub proof fn lemma_auth_at_most_once(s: RestSession, later: bool)
    ensures
        auth_step_spec(s) is Authenticate ==> !s.authenticated,
        s.authenticated ==> auth_step_spec(s) is Skip,
        record_auth_spec(s, true).authenticated,
        s.authenticated ==> record_auth_spec(s, later).authenticated,
        s.authenticated ==> auth_step_spec(record_auth_spec(s, later)) is Skip,
{
}

} // verus!
