//! Core abstractions: the parameter-set and endpoint traits, the binding
//! (`Aim`) of an endpoint to chosen parameters, the query composer, and the
//! generic client that runs one request end to end.

use crate::text::{count_char, matches_at, occurs_in};
use vstd::prelude::*;

verus! {

/// The error taxonomy of one request.
#[derive(Debug, Clone, PartialEq, Eq)]
pub enum ClientError {
    /// The credential provider found nothing, or the credential was empty.
    MissingCredential,
    /// The descriptor's base URL is malformed (empty).
    InvalidEndpoint,
    /// The transport failed or the remote answered with a non-success status.
    TransportError { status: u16, body: String },
    /// The response body was not valid JSON; carries the offending text.
    DecodeError { snippet: String },
}

/// The credential provider found nothing to return.
#[derive(Debug, Clone, PartialEq, Eq)]
pub struct CredentialError;

/// A failed transport call: the HTTP status (0 when no response arrived)
/// and whatever body text came with it.
#[derive(Debug, Clone, PartialEq, Eq)]
pub struct TransportFault {
    pub status: u16,
    pub body: String,
}

/// Supplies the API-key credential, or fails.
///
/// Real providers (process environment, on-disk key file) live outside the
/// library; tests inject stubs.
pub trait CredentialProvider {
    fn load(&self) -> (r: Result<String, CredentialError>);
}

/// Performs one synchronous GET and returns the raw body text, or the
/// transport failure. Implementations live outside the library.
pub trait Transport {
    fn fetch(&self, url: &str) -> (r: Result<String, TransportFault>);
}

/// The query fragment of the marker that introduces the credential.
pub open spec fn credential_marker() -> Seq<char> {
    "api_key="@
}

/// A well-formed base URL: non-empty, free of `?` and of `=`.
pub open spec fn base_url_valid(b: Seq<char>) -> bool {
    &&& b.len() > 0
    &&& count_char(b, '?') == 0
    &&& count_char(b, '=') == 0
}

/// A parameter fragment that cannot be mistaken for the credential part of
/// a composed URL: free of `?` and of the credential marker.
pub open spec fn fragment_valid(f: Seq<char>) -> bool {
    &&& count_char(f, '?') == 0
    &&& !occurs_in(f, credential_marker())
}

/// A string without the letter `k` cannot contain the credential marker.
pub proof fn lemma_no_k_no_marker(f: Seq<char>)
    requires
        count_char(f, 'k') == 0,
    ensures
        !occurs_in(f, credential_marker()),
{
    reveal_strlit("api_key=");
    assert forall|i: int| !matches_at(f, credential_marker(), i) by {
        if matches_at(f, credential_marker(), i) {
            assert(f[i + 4] == credential_marker()[4]);
            crate::text::lemma_count_zero_no_char(f, 'k', i + 4);
        }
    }
}

/// API parameters: every value renders to one query fragment, and one value
/// per type is the designated default.
pub trait Params: Sized {
    /// The fragment this value renders to.
    spec fn spec_render(&self) -> Seq<char>;

    /// The fragment the designated default value renders to.
    spec fn spec_default_render() -> Seq<char>;

    /// Renders this value to its `key=value` query fragment.
    fn render(&self) -> (r: String)
        ensures
            r@ == self.spec_render(),
    ;

    /// The designated default value, as an executable constructor.
    fn default_value() -> (r: Self)
        ensures
            r.spec_render() == Self::spec_default_render(),
    ;

    /// The default value renders to a fragment that cannot collide with the
    /// credential part of a composed URL.
    proof fn default_render_wf()
        ensures
            fragment_valid(Self::spec_default_render()),
    ;
}

/// A fragment whose text avoids `?` and the letter `k` cannot collide with
/// the credential part of a composed URL.
pub proof fn lemma_fragment_valid_by_chars(f: Seq<char>)
    requires
        count_char(f, '?') == 0,
        count_char(f, 'k') == 0,
    ensures
        fragment_valid(f),
{
    lemma_no_k_no_marker(f);
}

/// A `SubClient` describes one endpoint: a constant base URL accepting a
/// parameter set.
pub trait SubClient<P: Params>: Sized {
    /// The base URL of the endpoint.
    spec fn spec_base_url() -> Seq<char>;

    /// The base URL of the endpoint, as an executable constructor.
    fn base_url() -> (r: String)
        ensures
            r@ == Self::spec_base_url(),
    ;

    /// The base URL is non-empty and free of query punctuation.
    proof fn base_url_wf()
        ensures
            base_url_valid(Self::spec_base_url()),
    ;
}

/// The URL composed from a base URL, a rendered parameter fragment and a
/// credential: `base?fragment&api_key=cred`, or `base?api_key=cred` when the
/// fragment is empty.
pub open spec fn spec_compose(base: Seq<char>, frag: Seq<char>, cred: Seq<char>) -> Seq<char> {
    if frag.len() == 0 {
        base + "?"@ + credential_marker() + cred
    } else {
        base + "?"@ + frag + "&"@ + credential_marker() + cred
    }
}

/// Builds the final request URL from the endpoint's base URL, the rendered
/// parameter fragment and the credential. Pure: same inputs, same URL.
///
/// Fails with `MissingCredential` on an empty credential and with
/// `InvalidEndpoint` on an empty base URL; performs no URL-encoding of its
/// own.
pub fn compose(base_url: &str, fragment: &str, credential: &str) -> (r: Result<String, ClientError>)
    ensures
        credential@.len() == 0 ==> r == Err::<String, ClientError>(ClientError::MissingCredential),
        credential@.len() > 0 && base_url@.len() == 0 ==> r == Err::<String, ClientError>(
            ClientError::InvalidEndpoint,
        ),
        credential@.len() > 0 && base_url@.len() > 0 ==> r is Ok && r->Ok_0@ == spec_compose(
            base_url@,
            fragment@,
            credential@,
        ),
{
    if credential.is_empty() {
        return Err(ClientError::MissingCredential);
    }
    if base_url.is_empty() {
        return Err(ClientError::InvalidEndpoint);
    }
    let mut url = String::from_str(base_url);
    url.append("?");
    if !fragment.is_empty() {
        url.append(fragment);
        url.append("&");
    }
    url.append("api_key=");
    url.append(credential);
    proof {
        assert(url@ =~= spec_compose(base_url@, fragment@, credential@));
    }
    Ok(url)
}

/// The URL composed with an explicit credential parameter name:
/// `base?fragment&<name>=cred`, or `base?<name>=cred` when the fragment is
/// empty.
pub open spec fn spec_compose_named(
    base: Seq<char>,
    frag: Seq<char>,
    name: Seq<char>,
    cred: Seq<char>,
) -> Seq<char> {
    if frag.len() == 0 {
        base + "?"@ + name + "="@ + cred
    } else {
        base + "?"@ + frag + "&"@ + name + "="@ + cred
    }
}

/// Builds the final request URL with an explicit credential parameter
/// name, for endpoint families that name the credential otherwise than
/// `api_key`. The failure cases are those of `compose`.
pub fn compose_with_key_name(
    base_url: &str,
    fragment: &str,
    key_name: &str,
    credential: &str,
) -> (r: Result<String, ClientError>)
    ensures
        credential@.len() == 0 ==> r == Err::<String, ClientError>(ClientError::MissingCredential),
        credential@.len() > 0 && base_url@.len() == 0 ==> r == Err::<String, ClientError>(
            ClientError::InvalidEndpoint,
        ),
        credential@.len() > 0 && base_url@.len() > 0 ==> r is Ok && r->Ok_0@ == spec_compose_named(
            base_url@,
            fragment@,
            key_name@,
            credential@,
        ),
{
    if credential.is_empty() {
        return Err(ClientError::MissingCredential);
    }
    if base_url.is_empty() {
        return Err(ClientError::InvalidEndpoint);
    }
    let mut url = String::from_str(base_url);
    url.append("?");
    if !fragment.is_empty() {
        url.append(fragment);
        url.append("&");
    }
    url.append(key_name);
    url.append("=");
    url.append(credential);
    proof {
        assert(url@ =~= spec_compose_named(base_url@, fragment@, key_name@, credential@));
    }
    Ok(url)
}

/// `compose` is `compose_with_key_name` with the name fixed to `api_key`.
pub proof fn lemma_compose_names_api_key(base: Seq<char>, frag: Seq<char>, cred: Seq<char>)
    ensures
        spec_compose(base, frag, cred) == spec_compose_named(base, frag, "api_key"@, cred),
{
    reveal_strlit("api_key=");
    reveal_strlit("api_key");
    reveal_strlit("=");
    assert(credential_marker() =~= "api_key"@ + "="@);
    assert(spec_compose(base, frag, cred) =~= spec_compose_named(base, frag, "api_key"@, cred));
}

/// Appends the credential to an already-composed query string, as
/// `<query>&api_key=<key>`.
pub fn append_credential(query: &str, key: &str) -> (r: String)
    ensures
        r@ == query@ + "&"@ + credential_marker() + key@,
{
    let mut url = String::from_str(query);
    url.append("&");
    url.append("api_key=");
    url.append(key);
    proof {
        assert(url@ =~= query@ + "&"@ + credential_marker() + key@);
    }
    url
}

/// Points a `SubClient` with `Params` to a URL: `base?fragment`.
pub fn point<S, P>(params: P) -> (r: String)
    where
        S: SubClient<P>,
        P: Params,
    ensures
        r@ == S::spec_base_url() + "?"@ + params.spec_render(),
{
    let mut url = S::base_url();
    url.append("?");
    url.append(params.render().as_str());
    proof {
        assert(url@ =~= S::spec_base_url() + "?"@ + params.spec_render());
    }
    url
}

/// Points with a slash instead of a question mark: `base/fragment`.
pub fn point_slash<S, P>(params: P) -> (r: String)
    where
        S: SubClient<P>,
        P: Params,
    ensures
        r@ == S::spec_base_url() + "/"@ + params.spec_render(),
{
    let mut url = S::base_url();
    url.append("/");
    url.append(params.render().as_str());
    proof {
        assert(url@ =~= S::spec_base_url() + "/"@ + params.spec_render());
    }
    url
}

/// Concatenates the base URL with the parameters and appends the credential
/// taken from the provider, through `compose`: a missing or empty
/// credential fails with `MissingCredential`, an empty base URL with
/// `InvalidEndpoint`, and nothing else fails. An Ok value has the shape of
/// `spec_compose`, so `laws::lemma_composed_url_shape` applies to it.
pub fn concat_query<C: CredentialProvider>(
    base_url: &str,
    params_str: &str,
    provider: &C,
) -> (r: Result<String, ClientError>)
    ensures
        r is Err ==> (r->Err_0 == ClientError::MissingCredential || r->Err_0
            == ClientError::InvalidEndpoint),
        r == Err::<String, ClientError>(ClientError::InvalidEndpoint) ==> base_url@.len() == 0,
        base_url@.len() == 0 ==> r is Err,
        r is Ok ==> base_url@.len() > 0 && exists|k: Seq<char>|
            k.len() > 0 && r->Ok_0@ == spec_compose(base_url@, params_str@, k),
{
    let key = match provider.load() {
        Ok(k) => k,
        Err(_) => {
            return Err(ClientError::MissingCredential);
        },
    };
    compose(base_url, params_str, key.as_str())
}

/// An `Aim` binds a `SubClient` to a chosen `Params` value: a request that
/// is ready to execute.
#[derive(Debug, Clone, PartialEq)]
pub struct Aim<S, P>(S, P) where S: SubClient<P>, P: Params;

impl<S, P> Aim<S, P> where S: SubClient<P>, P: Params {
    /// The endpoint this aim is bound to.
    pub closed spec fn spec_subclient(&self) -> S {
        self.0
    }

    /// The parameter value this aim is bound to.
    pub closed spec fn spec_params(&self) -> P {
        self.1
    }

    /// Pairs an endpoint with a parameter value.
    pub fn new(subclient: S, params: P) -> (r: Self)
        ensures
            r.spec_subclient() == subclient,
            r.spec_params() == params,
    {
        Aim(subclient, params)
    }

    /// Get the `SubClient`.
    pub fn subclient(&self) -> (r: &S)
        ensures
            *r == self.spec_subclient(),
    {
        &self.0
    }

    /// Get the `Params`.
    pub fn params(&self) -> (r: &P)
        ensures
            *r == self.spec_params(),
    {
        &self.1
    }

    /// Set the `SubClient`.
    pub fn set_subclient(&mut self, subclient: S)
        ensures
            final(self).spec_subclient() == subclient,
            final(self).spec_params() == old(self).spec_params(),
    {
        self.0 = subclient;
    }

    /// Set the `Params`.
    pub fn set_params(&mut self, params: P)
        ensures
            final(self).spec_params() == params,
            final(self).spec_subclient() == old(self).spec_subclient(),
    {
        self.1 = params;
    }

    /// The same endpoint bound to new parameters; nothing of the old
    /// parameters remains.
    pub fn with_params(self, params: P) -> (r: Self)
        ensures
            r.spec_subclient() == self.spec_subclient(),
            r.spec_params() == params,
    {
        let Aim(s, _) = self;
        Aim(s, params)
    }

    /// The same parameters aimed at a new endpoint of the same family.
    pub fn with_endpoint(self, subclient: S) -> (r: Self)
        ensures
            r.spec_subclient() == subclient,
            r.spec_params() == self.spec_params(),
    {
        let Aim(_, p) = self;
        Aim(subclient, p)
    }
}

/// The error of a failed search through a decoded response.
#[derive(Debug, Clone, PartialEq, Eq)]
pub enum FilterError {
    /// The searched key is absent, or its value is null.
    KeyNotFound,
}

/// A rule that extracts values from a decoded JSON tree.
pub trait Filter {
    /// What this rule extracts from the tree, or the error it reports.
    spec fn spec_filter(&self, json: crate::json::JsonValue) -> Result<
        Seq<crate::json::JsonValue>,
        FilterError,
    >;

    /// Extracts the values from the tree.
    fn filter(&self, json: crate::json::JsonValue) -> (r: Result<
        Vec<crate::json::JsonValue>,
        FilterError,
    >)
        ensures
            r is Ok <==> self.spec_filter(json) is Ok,
            r is Ok ==> r->Ok_0@ == self.spec_filter(json)->Ok_0,
            r is Err ==> r->Err_0 == self.spec_filter(json)->Err_0,
    ;
}

/// An error that `execute` can return whatever the provider and the
/// transport did: everything but `InvalidEndpoint`.
pub open spec fn runtime_failure(e: ClientError) -> bool {
    ||| e == ClientError::MissingCredential
    ||| e matches ClientError::TransportError { .. }
    ||| e matches ClientError::DecodeError { .. }
}

/// Turns the transport outcome into the final execution result: a transport
/// failure is surfaced verbatim as `TransportError`, a body that is not
/// well-formed JSON as `DecodeError` carrying that body, and a well-formed
/// body as the decoded JSON tree.
pub fn decode_body(outcome: Result<String, TransportFault>) -> (r: Result<
    serde_json::Value,
    ClientError,
>)
    ensures
        outcome is Err ==> r == Err::<serde_json::Value, ClientError>(
            ClientError::TransportError {
                status: outcome->Err_0.status,
                body: outcome->Err_0.body,
            },
        ),
        outcome is Ok && crate::json::json_wf(outcome->Ok_0@) ==> r is Ok,
        outcome is Ok && !crate::json::json_wf(outcome->Ok_0@) ==> r == Err::<
            serde_json::Value,
            ClientError,
        >(ClientError::DecodeError { snippet: outcome->Ok_0 }),
{
    match outcome {
        Err(f) => Err(ClientError::TransportError { status: f.status, body: f.body }),
        Ok(body) => match crate::json::parse_value(body.as_str()) {
            Some(v) => Ok(v),
            None => Err(ClientError::DecodeError { snippet: body }),
        },
    }
}

/// Turns the transport outcome into the decoded library tree: a transport
/// failure is surfaced verbatim as `TransportError`, a body that is not
/// well-formed JSON as `DecodeError` carrying that body, and a well-formed
/// body as exactly the tree that `json_tree_of` names for it.
pub fn decode_body_tree(outcome: Result<String, TransportFault>) -> (r: Result<
    crate::json::JsonValue,
    ClientError,
>)
    ensures
        outcome is Err ==> r == Err::<crate::json::JsonValue, ClientError>(
            ClientError::TransportError {
                status: outcome->Err_0.status,
                body: outcome->Err_0.body,
            },
        ),
        outcome is Ok && crate::json::json_wf(outcome->Ok_0@) ==> r is Ok && r->Ok_0@
            == crate::json::json_tree_of(outcome->Ok_0@),
        outcome is Ok && !crate::json::json_wf(outcome->Ok_0@) ==> r == Err::<
            crate::json::JsonValue,
            ClientError,
        >(ClientError::DecodeError { snippet: outcome->Ok_0 }),
{
    match outcome {
        Err(f) => Err(ClientError::TransportError { status: f.status, body: f.body }),
        Ok(body) => match crate::json::parse_tree(body.as_str()) {
            Some(v) => Ok(v),
            None => Err(ClientError::DecodeError { snippet: body }),
        },
    }
}

/// The core client: holds one endpoint and one parameter value and runs the
/// whole execution path for them. Stateless between calls.
#[derive(Debug, Clone, PartialEq)]
pub struct NervaClient<S, P> where S: SubClient<P>, P: Params {
    subclient: S,
    params: P,
}

impl<S, P> NervaClient<S, P> where S: SubClient<P>, P: Params {
    /// The endpoint this client is aimed at.
    pub closed spec fn spec_subclient(&self) -> S {
        self.subclient
    }

    /// The parameter value this client carries.
    pub closed spec fn spec_params(&self) -> P {
        self.params
    }

    /// Construct a new `NervaClient` with a `SubClient` and `Params`.
    pub fn new(subclient: S, params: P) -> (r: Self)
        ensures
            r.spec_subclient() == subclient,
            r.spec_params() == params,
    {
        NervaClient { subclient, params }
    }

    /// Switch to a different pair of `SubClient` and `Params`.
    pub fn switch_prim<Sn, Pn>(&self, subnew: Sn, paranew: Pn) -> (r: NervaClient<Sn, Pn>)
        where
            Sn: SubClient<Pn>,
            Pn: Params,
        ensures
            r.spec_subclient() == subnew,
            r.spec_params() == paranew,
    {
        NervaClient::new(subnew, paranew)
    }

    /// Switch to the endpoint and parameters of another aim.
    pub fn switch<Sn, Pn>(&self, aim: Aim<Sn, Pn>) -> (r: NervaClient<Sn, Pn>)
        where
            Sn: SubClient<Pn>,
            Pn: Params,
        ensures
            r.spec_subclient() == aim.spec_subclient(),
            r.spec_params() == aim.spec_params(),
    {
        let Aim(s, p) = aim;
        NervaClient::new(s, p)
    }

    /// Runs one request as `Client::get` does, but decodes into the
    /// library's own tree: `decode_body_tree` pins the shape of the Ok
    /// value to exactly the parse of the fetched body.
    pub fn get_tree<C: CredentialProvider, T: Transport>(&self, provider: &C, transport: &T) -> (r:
        Result<crate::json::JsonValue, ClientError>)
        ensures
            r is Err ==> runtime_failure(r->Err_0),
    {
        proof {
            S::base_url_wf();
        }
        let fragment = self.params.render();
        let cred = match provider.load() {
            Ok(c) => c,
            Err(_) => {
                return Err(ClientError::MissingCredential);
            },
        };
        let base = S::base_url();
        let url = match compose(base.as_str(), fragment.as_str(), cred.as_str()) {
            Ok(u) => u,
            Err(e) => {
                return Err(e);
            },
        };
        decode_body_tree(transport.fetch(url.as_str()))
    }
}

/// A `Client` interface defines a wrapper over any `SubClient` with some
/// `Params`: one call of `get` runs one request.
pub trait Client<S, P> where S: SubClient<P>, P: Params {
    /// Runs one request with the given credential provider and transport
    /// and yields the decoded response, or the error that stopped it.
    fn get<C: CredentialProvider, T: Transport>(&self, provider: &C, transport: &T) -> (r: Result<
        serde_json::Value,
        ClientError,
    >)
        ensures
            r is Err ==> runtime_failure(r->Err_0),
    ;
}

impl<S, P> Client<S, P> for NervaClient<S, P> where S: SubClient<P>, P: Params {
    /// Renders the parameters, loads the credential, composes the URL,
    /// performs exactly one transport call and decodes the body; the
    /// transport is consulted only after a non-empty credential was
    /// obtained.
    fn get<C: CredentialProvider, T: Transport>(&self, provider: &C, transport: &T) -> (r: Result<
        serde_json::Value,
        ClientError,
    >) {
        proof {
            S::base_url_wf();
        }
        let fragment = self.params.render();
        let cred = match provider.load() {
            Ok(c) => c,
            Err(_) => {
                return Err(ClientError::MissingCredential);
            },
        };
        let base = S::base_url();
        let url = match compose(base.as_str(), fragment.as_str(), cred.as_str()) {
            Ok(u) => u,
            Err(e) => {
                return Err(e);
            },
        };
        decode_body(transport.fetch(url.as_str()))
    }
}

impl<S: SubClient<P>, P: Params> From<Aim<S, P>> for NervaClient<S, P> {
    fn from(aim: Aim<S, P>) -> Self {
        let Aim(s, p) = aim;
        NervaClient::new(s, p)
    }
}

impl<S: SubClient<P>, P: Params> vstd::std_specs::convert::FromSpecImpl<Aim<S, P>> for NervaClient<S, P> {
    closed spec fn obeys_from_spec() -> bool {
        true
    }

    closed spec fn from_spec(aim: Aim<S, P>) -> Self {
        NervaClient { subclient: aim.spec_subclient(), params: aim.spec_params() }
    }
}

impl<S: SubClient<P>, P: Params> From<S> for Aim<S, P> {
    fn from(subclient: S) -> Self {
        Aim(subclient, P::default_value())
    }
}

impl<S: SubClient<P>, P: Params> vstd::std_specs::convert::FromSpecImpl<S> for Aim<S, P> {
    closed spec fn obeys_from_spec() -> bool {
        false
    }

    closed spec fn from_spec(subclient: S) -> Self {
        Aim(subclient, arbitrary())
    }
}

} // verus!
