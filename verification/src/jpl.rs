//! Clients for the JPL small-body endpoints: fireball data and mission
//! design. These endpoints take no credential.

use crate::json::{json_wf, pretty_of};
use crate::kernel::{ClientError, Transport, TransportFault};
use crate::text::{spec_digits, u64_to_string};
use vstd::prelude::*;

verus! {

/// What a credential-free query can return: the pretty-printed text of a
/// well-formed JSON body, or a transport or decode failure.
pub open spec fn plain_query_result(r: Result<String, ClientError>) -> bool {
    match r {
        Ok(p) => exists|b: Seq<char>| json_wf(b) && p@ == pretty_of(b),
        Err(e) => e matches ClientError::TransportError { .. } || e matches
            ClientError::DecodeError { .. },
    }
}

fn fetch_pretty<T: Transport>(transport: &T, url: &str) -> (r: Result<String, ClientError>)
    ensures
        plain_query_result(r),
{
    let res = match transport.fetch(url) {
        Ok(b) => b,
        Err(TransportFault { status, body }) => {
            return Err(ClientError::TransportError { status, body });
        },
    };
    match crate::pretty::to_string_pretty(res) {
        Ok(p) => Ok(p),
        Err(e) => Err(e),
    }
}

/// Atmospheric impact data client
#[derive(Debug, PartialEq)]
pub struct FireballClient {
    base_url: String,
    limit: Option<u32>,
}

impl FireballClient {
    /// The base URL this client queries.
    pub closed spec fn spec_base_url(&self) -> Seq<char> {
        self.base_url@
    }

    /// How many records one query asks for, if bounded.
    pub closed spec fn spec_limit(&self) -> Option<u32> {
        self.limit
    }

    /// A client with no record limit.
    pub fn new() -> (r: Self)
        ensures
            r.spec_base_url() == "https://ssd-api.jpl.nasa.gov/fireball.api"@,
            r.spec_limit() is None,
    {
        FireballClient {
            base_url: String::from_str("https://ssd-api.jpl.nasa.gov/fireball.api"),
            limit: None,
        }
    }

    /// Bounds the number of records one query asks for.
    pub fn limit(&mut self, limit: u32)
        ensures
            final(self).spec_limit() == Some(limit),
            final(self).spec_base_url() == old(self).spec_base_url(),
    {
        self.limit = Some(limit)
    }

    /// The URL one query composes.
    pub open spec fn spec_query_url(&self) -> Seq<char> {
        match self.spec_limit() {
            None => self.spec_base_url(),
            Some(l) => self.spec_base_url() + "?limit="@ + spec_digits(l as nat),
        }
    }

    /// Composes the URL one query fetches: the bare base URL, or the base
    /// URL with the record limit appended.
    pub fn query_url(&self) -> (r: String)
        ensures
            r@ == self.spec_query_url(),
    {
        if self.limit.is_none() {
            String::from_str(self.base_url.as_str())
        } else {
            let l = *self.limit.as_ref().unwrap();
            let mut u = String::from_str(self.base_url.as_str());
            u.append("?limit=");
            u.append(u64_to_string(l as u64).as_str());
            proof {
                assert(u@ =~= self.spec_query_url());
            }
            u
        }
    }

    /// Queries the endpoint and returns the pretty-printed response text;
    /// the URL fetched is exactly `spec_query_url`.
    pub fn query<T: Transport>(&self, transport: &T) -> (r: Result<String, ClientError>)
        ensures
            plain_query_result(r),
    {
        let url = self.query_url();
        fetch_pretty(transport, url.as_str())
    }
}

/// How a mission-design query names its object.
#[derive(Debug, PartialEq)]
pub enum QueryType {
    /// Designation (provisional or IAU-number) of the desired object;
    /// spaces must already be encoded as `%20`.
    DES,
    /// Object search string: designation in various forms, case-insensitive
    /// name, or SPK-ID.
    SSTR,
}

/// Mission design client in query (Q) mode
#[derive(Debug, PartialEq)]
pub struct MissionDesign {
    base_url: String,
}

impl MissionDesign {
    /// The base URL this client queries.
    pub closed spec fn spec_base_url(&self) -> Seq<char> {
        self.base_url@
    }

    /// A client on the mission-design endpoint.
    pub fn new() -> (r: Self)
        ensures
            r.spec_base_url() == "https://ssd-api.jpl.nasa.gov/mdesign.api?"@,
    {
        MissionDesign { base_url: String::from_str("https://ssd-api.jpl.nasa.gov/mdesign.api?") }
    }

    /// The URL one query composes.
    pub open spec fn spec_query_url(&self, query_type: QueryType, query: Seq<char>) -> Seq<char> {
        match query_type {
            QueryType::DES => self.spec_base_url() + "des="@ + query,
            QueryType::SSTR => self.spec_base_url() + "sstr="@ + query,
        }
    }

    /// Composes the URL one query fetches for the given mode and object.
    pub fn query_url(&self, query_type: &QueryType, query: &str) -> (r: String)
        ensures
            r@ == self.spec_query_url(*query_type, query@),
    {
        let mut url = String::from_str(self.base_url.as_str());
        match query_type {
            QueryType::DES => url.append("des="),
            QueryType::SSTR => url.append("sstr="),
        }
        url.append(query);
        proof {
            assert(url@ =~= self.spec_query_url(*query_type, query@));
        }
        url
    }

    /// Queries for an object and returns the pretty-printed response text;
    /// the URL fetched is exactly `spec_query_url`.
    pub fn query<T: Transport>(&self, transport: &T, query_type: QueryType, query: &str) -> (r:
        Result<String, ClientError>)
        ensures
            plain_query_result(r),
    {
        let url = self.query_url(&query_type, query);
        fetch_pretty(transport, url.as_str())
    }
}

/// Mission design client in accessible (A) mode
#[derive(Debug, PartialEq)]
pub struct MissionDesignAccessible {
    base_url: String,
    limit: Option<u32>,
    crit: Option<u8>,
    year: Option<String>,
    rdvz: Option<bool>,
    class: Option<String>,
}

impl MissionDesignAccessible {
    /// The base URL this client queries.
    pub closed spec fn spec_base_url(&self) -> Seq<char> {
        self.base_url@
    }

    /// The record limit, if set.
    pub closed spec fn spec_limit(&self) -> Option<u32> {
        self.limit
    }

    /// The sorting criterion, if set.
    pub closed spec fn spec_crit(&self) -> Option<u8> {
        self.crit
    }

    /// The launch-year list, if set.
    pub closed spec fn spec_year(&self) -> Option<Seq<char>> {
        match self.year {
            Some(y) => Some(y@),
            None => None,
        }
    }

    /// The rendezvous flag, if set.
    pub closed spec fn spec_rdvz(&self) -> Option<bool> {
        self.rdvz
    }

    /// The orbit-class restriction, if set.
    pub closed spec fn spec_class(&self) -> Option<Seq<char>> {
        match self.class {
            Some(c) => Some(c@),
            None => None,
        }
    }

    /// The fields other than the named one keep their values.
    pub open spec fn spec_same_but(&self, other: &Self, limit: bool, crit: bool, year: bool, rdvz: bool, class: bool) -> bool {
        &&& limit || self.spec_limit() == other.spec_limit()
        &&& crit || self.spec_crit() == other.spec_crit()
        &&& year || self.spec_year() == other.spec_year()
        &&& rdvz || self.spec_rdvz() == other.spec_rdvz()
        &&& class || self.spec_class() == other.spec_class()
    }

    /// A client with no field set.
    pub fn new() -> (r: Self)
        ensures
            r.spec_base_url() == "https://ssd-api.jpl.nasa.gov/mdesign.api?"@,
            r.spec_limit() is None,
            r.spec_crit() is None,
            r.spec_year() is None,
            r.spec_rdvz() is None,
            r.spec_class() is None,
    {
        MissionDesignAccessible {
            base_url: String::from_str("https://ssd-api.jpl.nasa.gov/mdesign.api?"),
            limit: None,
            crit: None,
            year: None,
            rdvz: None,
            class: None,
        }
    }

    /// Sets the record limit.
    pub fn limit(&mut self, limit: u32)
        ensures
            final(self).spec_limit() == Some(limit),
            final(self).spec_same_but(old(self), true, false, false, false, false),
    {
        self.limit = Some(limit)
    }

    /// Sets the sorting criterion.
    pub fn crit(&mut self, crit: u8)
        ensures
            final(self).spec_crit() == Some(crit),
            final(self).spec_same_but(old(self), false, true, false, false, false),
    {
        self.crit = Some(crit)
    }

    /// Sets the launch-year list.
    pub fn year(&mut self, year: String)
        ensures
            final(self).spec_year() == Some(year@),
            final(self).spec_same_but(old(self), false, false, true, false, false),
    {
        self.year = Some(year)
    }

    /// Asks for rendezvous missions.
    pub fn rdvz(&mut self, rdvz: bool)
        ensures
            final(self).spec_rdvz() == Some(rdvz),
            final(self).spec_same_but(old(self), false, false, false, true, false),
    {
        self.rdvz = Some(rdvz)
    }

    /// Restricts to an orbit class.
    pub fn class(&mut self, class: String)
        ensures
            final(self).spec_class() == Some(class@),
            final(self).spec_same_but(old(self), false, false, false, false, true),
    {
        self.class = Some(class)
    }

    /// The URL a limit-criterion-year query composes.
    pub open spec fn spec_lim_crit_year_url(&self) -> Seq<char> {
        self.spec_base_url() + "lim="@ + spec_digits(self.spec_limit()->0 as nat) + "&crit="@
            + spec_digits(self.spec_crit()->0 as nat) + "&year="@ + self.spec_year()->0
    }

    /// Composes the URL a limit-criterion-year query fetches; the three
    /// fields must be set.
    pub fn lim_crit_year_url(&self) -> (r: String)
        requires
            self.spec_limit() is Some,
            self.spec_crit() is Some,
            self.spec_year() is Some,
        ensures
            r@ == self.spec_lim_crit_year_url(),
    {
        let mut url = String::from_str(self.base_url.as_str());
        url.append("lim=");
        url.append(u64_to_string(*self.limit.as_ref().unwrap() as u64).as_str());
        url.append("&crit=");
        url.append(u64_to_string(*self.crit.as_ref().unwrap() as u64).as_str());
        url.append("&year=");
        url.append(self.year.as_ref().unwrap().as_str());
        proof {
            assert(url@ =~= self.spec_lim_crit_year_url());
        }
        url
    }

    /// Queries with the limit, criterion and year fields, which must all be
    /// set, and returns the pretty-printed response text; the URL fetched
    /// is exactly `spec_lim_crit_year_url`.
    pub fn lim_crit_year<T: Transport>(&self, transport: &T) -> (r: Result<String, ClientError>)
        requires
            self.spec_limit() is Some,
            self.spec_crit() is Some,
            self.spec_year() is Some,
        ensures
            plain_query_result(r),
    {
        let url = self.lim_crit_year_url();
        fetch_pretty(transport, url.as_str())
    }
}

/// Mission design client in map (M) mode
#[derive(Debug, PartialEq)]
pub struct MissionDesignMap {
    base_url: String,
    des: Option<String>,
    mjd0: Option<u32>,
    span: Option<u32>,
    tof_min: Option<u32>,
    tof_max: Option<u32>,
    step: Option<u8>,
}

impl MissionDesignMap {
    /// The base URL this client queries.
    pub closed spec fn spec_base_url(&self) -> Seq<char> {
        self.base_url@
    }

    /// The object designation, if set.
    pub closed spec fn spec_des(&self) -> Option<Seq<char>> {
        match self.des {
            Some(d) => Some(d@),
            None => None,
        }
    }

    /// The start epoch, if set.
    pub closed spec fn spec_mjd0(&self) -> Option<u32> {
        self.mjd0
    }

    /// The epoch span, if set.
    pub closed spec fn spec_span(&self) -> Option<u32> {
        self.span
    }

    /// The time-of-flight bounds, if set.
    pub closed spec fn spec_tof(&self) -> (Option<u32>, Option<u32>) {
        (self.tof_min, self.tof_max)
    }

    /// The grid step, if set.
    pub closed spec fn spec_step(&self) -> Option<u8> {
        self.step
    }

    /// A client with no field set.
    pub fn new() -> (r: Self)
        ensures
            r.spec_base_url() == "https://ssd-api.jpl.nasa.gov/mdesign.api?"@,
            r.spec_des() is None,
            r.spec_mjd0() is None,
            r.spec_span() is None,
            r.spec_tof() == (None::<u32>, None::<u32>),
            r.spec_step() is None,
    {
        MissionDesignMap {
            base_url: String::from_str("https://ssd-api.jpl.nasa.gov/mdesign.api?"),
            des: None,
            mjd0: None,
            span: None,
            tof_min: None,
            tof_max: None,
            step: None,
        }
    }

    /// Sets the object designation.
    pub fn designation(&mut self, des: &str)
        ensures
            final(self).spec_des() == Some(des@),
            final(self).spec_mjd0() == old(self).spec_mjd0(),
            final(self).spec_span() == old(self).spec_span(),
            final(self).spec_tof() == old(self).spec_tof(),
            final(self).spec_step() == old(self).spec_step(),
    {
        self.des = Some(String::from_str(des))
    }

    /// Sets the start epoch (modified Julian date).
    pub fn mjd(&mut self, x: u32)
        ensures
            final(self).spec_mjd0() == Some(x),
            final(self).spec_des() == old(self).spec_des(),
            final(self).spec_span() == old(self).spec_span(),
            final(self).spec_tof() == old(self).spec_tof(),
            final(self).spec_step() == old(self).spec_step(),
    {
        self.mjd0 = Some(x)
    }

    /// Sets the epoch span.
    pub fn span(&mut self, span: u32)
        ensures
            final(self).spec_span() == Some(span),
            final(self).spec_des() == old(self).spec_des(),
            final(self).spec_mjd0() == old(self).spec_mjd0(),
            final(self).spec_tof() == old(self).spec_tof(),
            final(self).spec_step() == old(self).spec_step(),
    {
        self.span = Some(span)
    }

    /// Sets the time-of-flight bounds.
    pub fn tof(&mut self, min: u32, max: u32)
        ensures
            final(self).spec_tof() == (Some(min), Some(max)),
            final(self).spec_des() == old(self).spec_des(),
            final(self).spec_mjd0() == old(self).spec_mjd0(),
            final(self).spec_span() == old(self).spec_span(),
            final(self).spec_step() == old(self).spec_step(),
    {
        self.tof_min = Some(min);
        self.tof_max = Some(max);
    }

    /// Sets the grid step.
    pub fn step(&mut self, step: u8)
        ensures
            final(self).spec_step() == Some(step),
            final(self).spec_des() == old(self).spec_des(),
            final(self).spec_mjd0() == old(self).spec_mjd0(),
            final(self).spec_span() == old(self).spec_span(),
            final(self).spec_tof() == old(self).spec_tof(),
    {
        self.step = Some(step)
    }

    /// The URL a map-mode query composes.
    pub open spec fn spec_query_url(&self) -> Seq<char> {
        self.spec_base_url() + "des="@ + self.spec_des()->0 + "&mjd0="@ + spec_digits(
            self.spec_mjd0()->0 as nat,
        ) + "&span="@ + spec_digits(self.spec_span()->0 as nat) + "&tof-min="@ + spec_digits(
            self.spec_tof().0->0 as nat,
        ) + "&tof-max="@ + spec_digits(self.spec_tof().1->0 as nat) + "&step="@ + spec_digits(
            self.spec_step()->0 as nat,
        )
    }

    /// Composes the URL a map-mode query fetches; every field must be set.
    pub fn query_url(&self) -> (r: String)
        requires
            self.spec_des() is Some,
            self.spec_mjd0() is Some,
            self.spec_span() is Some,
            self.spec_tof().0 is Some,
            self.spec_tof().1 is Some,
            self.spec_step() is Some,
        ensures
            r@ == self.spec_query_url(),
    {
        let mut url = String::from_str(self.base_url.as_str());
        url.append("des=");
        url.append(self.des.as_ref().unwrap().as_str());
        url.append("&mjd0=");
        url.append(u64_to_string(*self.mjd0.as_ref().unwrap() as u64).as_str());
        url.append("&span=");
        url.append(u64_to_string(*self.span.as_ref().unwrap() as u64).as_str());
        url.append("&tof-min=");
        url.append(u64_to_string(*self.tof_min.as_ref().unwrap() as u64).as_str());
        url.append("&tof-max=");
        url.append(u64_to_string(*self.tof_max.as_ref().unwrap() as u64).as_str());
        url.append("&step=");
        url.append(u64_to_string(*self.step.as_ref().unwrap() as u64).as_str());
        proof {
            assert(url@ =~= self.spec_query_url());
        }
        url
    }

    /// Queries the map grid; every field must be set. Returns the
    /// pretty-printed response text; the URL fetched is exactly
    /// `spec_query_url`.
    pub fn query<T: Transport>(&self, transport: &T) -> (r: Result<String, ClientError>)
        requires
            self.spec_des() is Some,
            self.spec_mjd0() is Some,
            self.spec_span() is Some,
            self.spec_tof().0 is Some,
            self.spec_tof().1 is Some,
            self.spec_step() is Some,
        ensures
            plain_query_result(r),
    {
        let url = self.query_url();
        fetch_pretty(transport, url.as_str())
    }
}

} // verus!
