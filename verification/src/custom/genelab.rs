//! Query parameters of the GeneLab data repository.

use crate::client::{BaseBind, ClientBind, Interface};
use crate::text::{spec_digits, u64_to_string};
use vstd::prelude::*;

verus! {

/// Query parameters for the GeneLab API.
#[derive(Debug)]
pub enum QueryParams {
    /// Comma separated list with mixture of single GLDS accession numbers and ranges
    GldsStudyIds(String),
    /// Current page number in pagination
    CurrPageNumber(u32),
    /// Results per page
    ResultsPerPage(u32),
}

/// Which GeneLab collection is addressed.
#[derive(Debug)]
pub enum Mode {
    File,
    Meta,
}

/// The GeneLab endpoint, in file or metadata mode.
pub struct GeneLab {
    mode: Mode,
}

/// The path segment a mode selects.
pub open spec fn spec_mode_segment(mode: Mode) -> Seq<char> {
    match mode {
        Mode::File => "file"@,
        Mode::Meta => "meta"@,
    }
}

/// The base URL a mode selects.
pub open spec fn spec_mode_base(mode: Mode) -> Seq<char> {
    match mode {
        Mode::File => "https://genelab-data.ndc.nasa.gov/genelab/data/glds/file"@,
        Mode::Meta => "https://genelab-data.ndc.nasa.gov/genelab/data/glds/meta"@,
    }
}

impl GeneLab {
    /// The mode this endpoint addresses.
    pub closed spec fn spec_mode(&self) -> Mode {
        self.mode
    }

    /// An endpoint on the given collection.
    pub fn new(mode: Mode) -> (r: Self)
        ensures
            r.spec_mode() == mode,
    {
        Self { mode }
    }

    /// The full base URL of the addressed collection.
    pub fn make_base(&self) -> (r: String)
        ensures
            r@ == spec_mode_base(self.spec_mode()),
    {
        match self.mode {
            Mode::File => String::from_str(
                "https://genelab-data.ndc.nasa.gov/genelab/data/glds/file",
            ),
            Mode::Meta => String::from_str(
                "https://genelab-data.ndc.nasa.gov/genelab/data/glds/meta",
            ),
        }
    }
}

impl Interface for GeneLab {
    type Params = QueryParams;

    open spec fn spec_query(&self, params: &QueryParams) -> Seq<char> {
        spec_mode_segment(self.spec_mode()) + match params {
            QueryParams::GldsStudyIds(ids) => "?gldsStudyIds="@ + ids@,
            QueryParams::CurrPageNumber(n) => "?currPageNumber="@ + spec_digits(*n as nat),
            QueryParams::ResultsPerPage(n) => "?resultsPerPage="@ + spec_digits(*n as nat),
        }
    }

    fn start(base: BaseBind) -> (r: ClientBind) {
        ClientBind::new(base, None, None)
    }

    fn query(&self, params: QueryParams) -> (r: String) {
        let mut url = match self.mode {
            Mode::File => String::from_str("file"),
            Mode::Meta => String::from_str("meta"),
        };
        match params {
            QueryParams::GldsStudyIds(ids) => {
                url.append("?gldsStudyIds=");
                url.append(ids.as_str());
            },
            QueryParams::CurrPageNumber(n) => {
                url.append("?currPageNumber=");
                url.append(u64_to_string(n as u64).as_str());
            },
            QueryParams::ResultsPerPage(n) => {
                url.append("?resultsPerPage=");
                url.append(u64_to_string(n as u64).as_str());
            },
        }
        proof {
            assert(url@ =~= self.spec_query(&params));
        }
        url
    }
}

} // verus!
