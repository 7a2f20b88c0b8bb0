//! What the upstream provider of transit data sends, and how a request to it fails.

use vstd::prelude::*;
use crate::data::AreaType;

verus! {

/// A payload of the upstream provider.
pub trait TTType {
}

/// A failure of a request to the upstream provider.
#[derive(Debug)]
pub enum TTError {
    /// The request failed in transport, or the provider answered with an error.
    HttpError(String),
    /// The answer could not be decoded.
    JsonError(String),
}

impl TTError {
    /// The text that came with the failure.
    pub open spec fn text(&self) -> Seq<char> {
        match self {
            TTError::HttpError(m) => m@,
            TTError::JsonError(m) => m@,
        }
    }

    pub fn message(&self) -> (m: &str)
        ensures
            m@ == self.text(),
    {
        match self {
            TTError::HttpError(m) => m.as_str(),
            TTError::JsonError(m) => m.as_str(),
        }
    }
}

/// The result of a request to the upstream provider.
pub type TTResult<T> = Result<T, TTError>;

/// An area, as upstream sends it.
#[derive(Debug)]
pub struct TTArea {
    pub id: u16,
    pub label: String,
    pub ty: AreaType,
}

impl TTType for TTArea {
}

/// A route, as upstream sends it.
#[derive(Debug)]
pub struct TTRoute {
    pub id: u16,
    pub ty: u16,
    pub area: u16,
    pub color: String,
    pub name: String,
    pub code: String,
}

impl TTType for TTRoute {
}

/// The colour of a route for which upstream sends none.
pub open spec fn default_color() -> Seq<char> {
    "CCCCCC"@
}

/// The colour of a route: the one that upstream sent, or grey where it sent none.
pub fn parse_color(color: Option<String>) -> (c: String)
    ensures
        c@ == (match color {
            Some(c) => c@,
            None => default_color(),
        }),
{
    match color {
        Some(c) => c,
        None => String::from_str("CCCCCC"),
    }
}

/// The live state of a trip, as upstream sends it.
#[derive(Debug)]
pub struct TTTrip {
    pub id: String,
    pub route: u16,
    pub delay: i32,
    pub last_stop: Option<u16>,
    pub next_stop: Option<u16>,
    pub bus_id: Option<u16>,
    /// In milliseconds since the Unix epoch.
    pub last_event: Option<i64>,
}

impl TTType for TTTrip {
}

/// A list that upstream serves whole at one path.
pub trait VecEndpoint<Type: TTType> {
    /// The path of the list below the provider's base address.
    spec fn path() -> Seq<char>;

    fn endpoint() -> (p: &'static str)
        ensures
            p@ == Self::path(),
    ;
}

/// The address of upstream's lists.
pub struct TTEndpoints;

impl VecEndpoint<TTArea> for TTEndpoints {
    open spec fn path() -> Seq<char> {
        "/areas"@
    }

    fn endpoint() -> (p: &'static str) {
        "/areas"
    }
}

impl VecEndpoint<TTRoute> for TTEndpoints {
    open spec fn path() -> Seq<char> {
        "/routes"@
    }

    fn endpoint() -> (p: &'static str) {
        "/routes"
    }
}

/// The address of `path` at the provider whose base address is `base_url`.
pub fn endpoint_url(base_url: &str, path: &str) -> (url: String)
    ensures
        url@ == base_url@ + path@,
{
    let mut url = String::from_str(base_url);
    url.append(path);
    url
}

/// The value of the `authorization` header that presents `secret`.
pub fn authorization(secret: &str) -> (header: String)
    ensures
        header@ == "Basic "@ + secret@,
{
    let mut header = String::from_str("Basic ");
    header.append(secret);
    header
}

/// The path at which upstream serves the live state of the trip `id`.
pub fn trip_path(id: &str) -> (path: String)
    ensures
        path@ == "/trips/"@ + id@,
{
    let mut path = String::from_str("/trips/");
    path.append(id);
    path
}

} // verus!
