//! One geocoded row and the tags that say where its coordinates came from.

use crate::text::str_eq;
use vstd::prelude::*;

verus! {

/// A latitude or longitude, kept as the bit pattern of an IEEE-754 double.
/// The library stores and compares coordinates and never computes with them.
#[derive(Debug, Clone, Copy, PartialEq, Eq, Structural)]
pub struct Coordinate {
    pub bits: u64,
}

impl Coordinate {
    /// The coordinate with the given bit pattern.
    pub fn from_bits(bits: u64) -> (c: Coordinate)
        ensures
            c.bits == bits,
    {
        Coordinate { bits }
    }

    /// The bit pattern of the coordinate.
    pub fn to_bits(self) -> (bits: u64)
        ensures
            bits == self.bits,
    {
        self.bits
    }
}

/// The stage that produced the coordinates of a row.
#[derive(Debug, Clone, Copy, PartialEq, Eq, Structural)]
pub enum ResultSource {
    Cache,
    LocalResolver,
    RemoteApi,
}

impl ResultSource {
    /// The tag under which the stage is reported and stored.
    pub open spec fn tag(self) -> Seq<char> {
        match self {
            ResultSource::Cache => "cache"@,
            ResultSource::LocalResolver => "local-resolver"@,
            ResultSource::RemoteApi => "remote-api"@,
        }
    }

    /// The stage that a tag stands for.
    pub open spec fn tagged(tag: Seq<char>) -> Option<ResultSource> {
        if tag == "cache"@ {
            Some(ResultSource::Cache)
        } else if tag == "local-resolver"@ {
            Some(ResultSource::LocalResolver)
        } else if tag == "remote-api"@ {
            Some(ResultSource::RemoteApi)
        } else {
            None
        }
    }

    /// The stage that a tag stands for.
    pub fn from_tag(tag: &str) -> (r: Option<ResultSource>)
        ensures
            r == ResultSource::tagged(tag@),
    {
        if str_eq(tag, "cache") {
            Some(ResultSource::Cache)
        } else if str_eq(tag, "local-resolver") {
            Some(ResultSource::LocalResolver)
        } else if str_eq(tag, "remote-api") {
            Some(ResultSource::RemoteApi)
        } else {
            None
        }
    }

    /// The tag under which the stage is reported and stored.
    pub fn as_str(self) -> (r: &'static str)
        ensures
            r@ == self.tag(),
    {
        match self {
            ResultSource::Cache => "cache",
            ResultSource::LocalResolver => "local-resolver",
            ResultSource::RemoteApi => "remote-api",
        }
    }
}

/// The view of an optional string.
pub open spec fn opt_text(o: Option<String>) -> Option<Seq<char>> {
    match o {
        Some(s) => Some(s@),
        None => None,
    }
}

/// A copy of an optional string.
pub fn copy_opt_text(o: &Option<String>) -> (r: Option<String>)
    ensures
        opt_text(r) == opt_text(*o),
{
    match o {
        Some(s) => Some(s.clone()),
        None => None,
    }
}

/// The mathematical content of a [`GeocodeResult`].
pub struct GeocodeRecord {
    pub address: Seq<char>,
    pub lat: Option<Coordinate>,
    pub lon: Option<Coordinate>,
    pub source: Option<ResultSource>,
    pub status: Option<Seq<char>>,
    pub error: Option<Seq<char>>,
}

impl GeocodeRecord {
    /// A row is resolved when it carries both coordinates.
    pub open spec fn resolved(self) -> bool {
        self.lat is Some && self.lon is Some
    }

    /// A row is well formed when it carries both coordinates or neither.
    pub open spec fn well_formed(self) -> bool {
        self.lat is Some <==> self.lon is Some
    }

    /// The row that reports `address` as not placed by any stage.
    pub open spec fn residual(address: Seq<char>) -> GeocodeRecord {
        GeocodeRecord {
            address,
            lat: None,
            lon: None,
            source: None,
            status: None,
            error: None,
        }
    }

    /// The same row, credited to `source`.
    pub open spec fn from_source(self, source: ResultSource) -> GeocodeRecord {
        GeocodeRecord { source: Some(source), ..self }
    }
}

/// One row of a geocoding answer: the address as it was asked, the
/// coordinates where a stage placed it, and optional diagnostics.
#[derive(Debug, Clone, PartialEq, Eq)]
pub struct GeocodeResult {
    pub address: String,
    pub lat: Option<Coordinate>,
    pub lon: Option<Coordinate>,
    pub source: Option<ResultSource>,
    pub status: Option<String>,
    pub error: Option<String>,
}

impl View for GeocodeResult {
    type V = GeocodeRecord;

    open spec fn view(&self) -> GeocodeRecord {
        GeocodeRecord {
            address: self.address@,
            lat: self.lat,
            lon: self.lon,
            source: self.source,
            status: opt_text(self.status),
            error: opt_text(self.error),
        }
    }
}

impl DeepView for GeocodeResult {
    type V = GeocodeRecord;

    open spec fn deep_view(&self) -> GeocodeRecord {
        self@
    }
}

impl GeocodeResult {
    /// Whether the row carries both coordinates.
    pub fn is_resolved(&self) -> (r: bool)
        ensures
            r == self@.resolved(),
    {
        self.lat.is_some() && self.lon.is_some()
    }

    /// The row that reports `address` as not placed: no coordinates, no
    /// source and no diagnostics.
    pub fn unresolved(address: String) -> (r: GeocodeResult)
        ensures
            r@ == GeocodeRecord::residual(address@),
    {
        GeocodeResult { address, lat: None, lon: None, source: None, status: None, error: None }
    }

    /// The row that places `address` at `(lat, lon)` on behalf of `source`.
    pub fn located(address: String, lat: Coordinate, lon: Coordinate, source: ResultSource) -> (r:
        GeocodeResult)
        ensures
            r@ == (GeocodeRecord {
                address: address@,
                lat: Some(lat),
                lon: Some(lon),
                source: Some(source),
                status: None,
                error: None,
            }),
    {
        GeocodeResult {
            address,
            lat: Some(lat),
            lon: Some(lon),
            source: Some(source),
            status: None,
            error: None,
        }
    }

    /// A copy of the row.
    pub fn duplicate(&self) -> (r: GeocodeResult)
        ensures
            r@ == self@,
    {
        GeocodeResult {
            address: self.address.clone(),
            lat: self.lat,
            lon: self.lon,
            source: self.source,
            status: copy_opt_text(&self.status),
            error: copy_opt_text(&self.error),
        }
    }

    /// A copy of the row, credited to `source`.
    pub fn credited_to(&self, source: ResultSource) -> (r: GeocodeResult)
        ensures
            r@ == self@.from_source(source),
    {
        GeocodeResult {
            address: self.address.clone(),
            lat: self.lat,
            lon: self.lon,
            source: Some(source),
            status: copy_opt_text(&self.status),
            error: copy_opt_text(&self.error),
        }
    }
}

} // verus!
