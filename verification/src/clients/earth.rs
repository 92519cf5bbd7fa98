//! Earth Landsat imagery endpoint.

use crate::kernel::{lemma_fragment_valid_by_chars, Params, SubClient};
use crate::text::{count_char, count_char_from};
use vstd::prelude::*;

verus! {

/// Params for the Earth API. Coordinates and dimensions are carried as
/// their already-rendered decimal text.
#[derive(Debug)]
pub struct EarthParams {
    /// Latitude of the location
    pub lat: String,
    /// Longitude of the location
    pub lon: String,
    /// Dimension of the image (Optional)
    pub dim: Option<String>,
    /// Date of the image (Optional)
    pub date: Option<String>,
    /// Include cloud score in the response (Optional)
    pub cloud_score: Option<bool>,
}

impl EarthParams {
    /// Parameters at the default location, with every option unset.
    pub fn new() -> (r: Self)
        ensures
            r.spec_render() == Self::spec_default_render(),
    {
        EarthParams::default_value()
    }

    /// Replaces the latitude.
    pub fn lat(self, lat: String) -> (r: Self)
        ensures
            r == (EarthParams { lat, ..self }),
    {
        EarthParams { lat, ..self }
    }

    /// Replaces the longitude.
    pub fn lon(self, lon: String) -> (r: Self)
        ensures
            r == (EarthParams { lon, ..self }),
    {
        EarthParams { lon, ..self }
    }

    /// Sets the image dimension.
    pub fn dim(self, dim: String) -> (r: Self)
        ensures
            r == (EarthParams { dim: Some(dim), ..self }),
    {
        EarthParams { dim: Some(dim), ..self }
    }

    /// Sets the image date.
    pub fn date(self, date: String) -> (r: Self)
        ensures
            r == (EarthParams { date: Some(date), ..self }),
    {
        EarthParams { date: Some(date), ..self }
    }

    /// Asks for a cloud score.
    pub fn cloud_score(self, cloud_score: bool) -> (r: Self)
        ensures
            r == (EarthParams { cloud_score: Some(cloud_score), ..self }),
    {
        EarthParams { cloud_score: Some(cloud_score), ..self }
    }
}

impl Params for EarthParams {
    open spec fn spec_render(&self) -> Seq<char> {
        "lat="@ + self.lat@ + "&lon="@ + self.lon@ + (if self.dim is Some {
            "&dim="@ + self.dim->0@
        } else {
            Seq::<char>::empty()
        }) + (if self.date is Some {
            "&date="@ + self.date->0@
        } else {
            Seq::<char>::empty()
        }) + (if self.cloud_score is Some {
            "&cloud_score="@ + (if self.cloud_score->0 {
                "true"@
            } else {
                "false"@
            })
        } else {
            Seq::<char>::empty()
        })
    }

    open spec fn spec_default_render() -> Seq<char> {
        "lat=0&lon=0"@
    }

    fn render(&self) -> (r: String) {
        let mut s = String::from_str("lat=");
        s.append(self.lat.as_str());
        s.append("&lon=");
        s.append(self.lon.as_str());
        if let Some(dim) = &self.dim {
            s.append("&dim=");
            s.append(dim.as_str());
        }
        if let Some(date) = &self.date {
            s.append("&date=");
            s.append(date.as_str());
        }
        if let Some(cloud_score) = &self.cloud_score {
            s.append("&cloud_score=");
            s.append(crate::text::bool_to_str(*cloud_score));
        }
        proof {
            assert(s@ =~= self.spec_render());
        }
        s
    }

    fn default_value() -> (r: Self) {
        let r = EarthParams {
            lat: String::from_str("0"),
            lon: String::from_str("0"),
            dim: None,
            date: None,
            cloud_score: None,
        };
        proof {
            reveal_strlit("lat=");
            reveal_strlit("&lon=");
            reveal_strlit("0");
            reveal_strlit("lat=0&lon=0");
            assert(r.spec_render() =~= Self::spec_default_render());
        }
        r
    }

    proof fn default_render_wf() {
        let f = "lat=0&lon=0"@;
        reveal_strlit("lat=0&lon=0");
        reveal_with_fuel(count_char_from, 13);
        assert(count_char(f, '?') == 0);
        assert(count_char(f, 'k') == 0);
        lemma_fragment_valid_by_chars(f);
    }
}

impl Default for EarthParams {
    fn default() -> (r: Self)
        ensures
            r.spec_render() == Self::spec_default_render(),
    {
        EarthParams::default_value()
    }
}

/// Earth API client
#[derive(Clone, Debug)]
pub struct Earth {}

impl Default for Earth {
    fn default() -> (r: Self)
        ensures
            r == (Earth {  }),
    {
        Earth {  }
    }
}

impl Earth {
    /// Create a new `Earth` client
    pub fn new() -> (r: Self)
        ensures
            r == (Earth {  }),
    {
        Earth {  }
    }
}

impl<P: Params> SubClient<P> for Earth {
    open spec fn spec_base_url() -> Seq<char> {
        "https://api.nasa.gov/planetary/earth/imagery"@
    }

    fn base_url() -> (r: String) {
        String::from_str("https://api.nasa.gov/planetary/earth/imagery")
    }

    proof fn base_url_wf() {
        let b = "https://api.nasa.gov/planetary/earth/imagery"@;
        reveal_strlit("https://api.nasa.gov/planetary/earth/imagery");
        reveal_with_fuel(count_char_from, 46);
        assert(count_char(b, '?') == 0);
        assert(count_char(b, '=') == 0);
    }
}

} // verus!
