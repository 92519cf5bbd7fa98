//! Bare bindings: a base URL paired with an optional target, and the
//! interface every endpoint of this family implements.

/// Picture of the Day API
pub mod apod;
/// DONKI APIs (Database of Notifications, Knowledge, Information)
pub mod donki;
/// Near Earth Objects API
pub mod neo;

use vstd::prelude::*;

verus! {

/// A bare base URL.
#[derive(Debug)]
pub struct BaseBind(String);

impl BaseBind {
    /// The URL this bind carries.
    pub closed spec fn spec_url(&self) -> Seq<char> {
        self.0@
    }

    /// Wraps a base URL.
    pub fn new(url: String) -> (r: Self)
        ensures
            r.spec_url() == url@,
    {
        BaseBind(url)
    }

    /// The URL this bind carries.
    pub fn url(&self) -> (r: &str)
        ensures
            r@ == self.spec_url(),
    {
        self.0.as_str()
    }
}

/// The view of an optional text.
pub open spec fn opt_text(o: Option<String>) -> Option<Seq<char>> {
    match o {
        Some(t) => Some(t@),
        None => None,
    }
}

/// The view of an optional pair of texts.
pub open spec fn opt_text_pair(o: Option<(String, String)>) -> Option<(Seq<char>, Seq<char>)> {
    match o {
        Some(p) => Some((p.0@, p.1@)),
        None => None,
    }
}

/// A base URL with an optional target and the last query-response pair.
#[derive(Debug)]
pub struct ClientBind {
    base: BaseBind,
    target: Option<String>,
    /// Last (Query, Response)
    lqr: Option<(String, String)>,
}

impl ClientBind {
    /// The base URL this bind queries.
    pub closed spec fn spec_base_url(&self) -> Seq<char> {
        self.base.spec_url()
    }

    /// The target, if one is set.
    pub closed spec fn spec_target(&self) -> Option<Seq<char>> {
        opt_text(self.target)
    }

    /// The last query-response pair, if one is kept.
    pub closed spec fn spec_lqr(&self) -> Option<(Seq<char>, Seq<char>)> {
        opt_text_pair(self.lqr)
    }

    /// Binds a base URL with an optional target and history; nothing is
    /// validated.
    pub fn new(base: BaseBind, target: Option<String>, lqr: Option<(String, String)>) -> (r:
        ClientBind)
        ensures
            r.spec_base_url() == base.spec_url(),
            r.spec_target() == opt_text(target),
            r.spec_lqr() == opt_text_pair(lqr),
    {
        ClientBind { base, target, lqr }
    }

    /// Replaces the base URL; the target and the history are kept.
    pub fn new_base(&mut self, base: BaseBind)
        ensures
            final(self).spec_base_url() == base.spec_url(),
            final(self).spec_target() == old(self).spec_target(),
            final(self).spec_lqr() == old(self).spec_lqr(),
    {
        self.base = base;
    }

    /// Replaces the target; the base URL and the history are kept.
    pub fn set_target(&mut self, target: Option<String>)
        ensures
            final(self).spec_base_url() == old(self).spec_base_url(),
            final(self).spec_target() == opt_text(target),
            final(self).spec_lqr() == old(self).spec_lqr(),
    {
        self.target = target;
    }
}

/// A wrapper over a base bind that can compose query strings.
pub trait Client {
    /// The base URL this client queries.
    spec fn spec_client_base(&self) -> Seq<char>;

    /// The base bind.
    fn base(&self) -> (r: &BaseBind)
        ensures
            r.spec_url() == self.spec_client_base(),
    ;

    /// Appends a query to the base URL.
    fn make_query_str(&self, query: &str) -> (r: String)
        ensures
            r@ == self.spec_client_base() + query@,
    ;
}

impl Client for ClientBind {
    open spec fn spec_client_base(&self) -> Seq<char> {
        self.spec_base_url()
    }

    fn base(&self) -> (r: &BaseBind) {
        &self.base
    }

    fn make_query_str(&self, query: &str) -> (r: String) {
        let mut url = String::from_str(self.base.url());
        url.append(query);
        url
    }
}

/// One endpoint of this family: it can open a bind on a base URL and it
/// renders each of its parameters to a query string.
pub trait Interface {
    /// The endpoint's parameter type.
    type Params;

    /// The query string a parameter value renders to.
    spec fn spec_query(&self, params: &Self::Params) -> Seq<char>;

    /// Opens a bind on a base URL.
    fn start(base: BaseBind) -> (r: ClientBind)
        ensures
            r.spec_base_url() == base.spec_url(),
    ;

    /// Renders a parameter value to its query string.
    fn query(&self, params: Self::Params) -> (r: String)
        ensures
            r@ == self.spec_query(&params),
    ;
}

} // verus!
