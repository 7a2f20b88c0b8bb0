//! The map data that the store holds: areas, routes and trips, and the coarse
//! classification that routes, stops and trips carry.

use vstd::prelude::*;
use crate::tt::{TTArea, TTRoute, TTTrip, TTType};

verus! {

/// The coarse classification of an area, a route, a stop or a trip.
#[derive(Clone, Copy, Debug, PartialEq, Eq, Structural)]
pub enum AreaType {
    /// Extra-urban.
    E,
    /// Urban.
    U,
}

impl AreaType {
    /// The text that stands for the classification in the store and in requests.
    pub open spec fn text(self) -> Seq<char> {
        match self {
            AreaType::E => "e"@,
            AreaType::U => "u"@,
        }
    }

    pub fn as_str(self) -> (s: &'static str)
        ensures
            s@ == self.text(),
    {
        match self {
            AreaType::E => "e",
            AreaType::U => "u",
        }
    }

    /// The classification that `s` stands for, and `None` where it stands for
    /// none.
    pub open spec fn parse_text(s: Seq<char>) -> Option<AreaType> {
        if s == AreaType::E.text() {
            Some(AreaType::E)
        } else if s == AreaType::U.text() {
            Some(AreaType::U)
        } else {
            None
        }
    }

    /// The classification that `s` stands for: `E` for "e", `U` for "u", and `None`
    /// for any other text.
    pub fn parse(s: &str) -> (r: Option<AreaType>)
        ensures
            r == Self::parse_text(s@),
    {
        proof {
            lemma_area_type_text(AreaType::E);
            lemma_area_type_text(AreaType::U);
        }
        if s.unicode_len() != 1 {
            return None;
        }
        let c = s.get_char(0);
        if c == 'e' {
            assert(s@ =~= seq!['e']);
            Some(AreaType::E)
        } else if c == 'u' {
            assert(s@ =~= seq!['u']);
            Some(AreaType::U)
        } else {
            None
        }
    }
}

/// The text of each classification, character by character.
pub proof fn lemma_area_type_text(a: AreaType)
    ensures
        a.text() == (match a {
            AreaType::E => seq!['e'],
            AreaType::U => seq!['u'],
        }),
{
    reveal_strlit("e");
    reveal_strlit("u");
}

/// A kind of record that has a collection of its own in the store.
pub trait BrussType {
    /// The name of the collection.
    spec fn collection_name() -> Seq<char>;

    fn collection() -> (name: &'static str)
        ensures
            name@ == Self::collection_name(),
    ;
}

/// A record that is made from a payload of the upstream provider.
pub trait FromTT<From: TTType>: Sized {
    /// The record that `value` becomes.
    fn from_tt(value: From) -> Self;
}

/// An area of the transit network.
#[derive(Debug)]
pub struct Area {
    pub id: u16,
    pub label: String,
    pub ty: AreaType,
}

impl Area {
    pub fn new(id: u16, label: String, ty: AreaType) -> (a: Self)
        ensures
            a == (Area { id, label, ty }),
    {
        Self { id, label, ty }
    }
}

impl BrussType for Area {
    open spec fn collection_name() -> Seq<char> {
        "areas"@
    }

    fn collection() -> (name: &'static str) {
        "areas"
    }
}

impl FromTT<TTArea> for Area {
    fn from_tt(value: TTArea) -> (r: Area)
        ensures
            r == (Area { id: value.id, label: value.label, ty: value.ty }),
    {
        Area::new(value.id, value.label, value.ty)
    }
}

/// A route of the transit network.
#[derive(Debug)]
pub struct Route {
    pub id: u16,
    pub ty: u16,
    pub area: u16,
    pub color: String,
    pub name: String,
    pub code: String,
}

impl Route {
    pub fn new(id: u16, ty: u16, area: u16, color: String, name: String, code: String) -> (r: Self)
        ensures
            r == (Route { id, ty, area, color, name, code }),
    {
        Self { id, area, color, name, code, ty }
    }
}

impl BrussType for Route {
    open spec fn collection_name() -> Seq<char> {
        "routes"@
    }

    fn collection() -> (name: &'static str) {
        "routes"
    }
}

impl FromTT<TTRoute> for Route {
    fn from_tt(value: TTRoute) -> (r: Route)
        ensures
            r == (Route {
                id: value.id,
                ty: value.ty,
                area: value.area,
                color: value.color,
                name: value.name,
                code: value.code,
            }),
    {
        let TTRoute { id, ty, area, color, name, code } = value;
        Route::new(id, ty, area, color, name, code)
    }
}

/// The live state of one trip, as far as tracking reads it.
#[derive(Debug)]
pub struct Trip {
    pub id: String,
    /// The route that the trip runs on.
    pub route: u16,
    /// The delay in seconds; negative when the trip runs early.
    pub delay: i32,
    pub last_stop: Option<u16>,
    pub next_stop: Option<u16>,
    pub bus_id: Option<u16>,
    /// When upstream last heard of the trip, in milliseconds since the Unix epoch.
    pub last_event: Option<i64>,
}

impl BrussType for Trip {
    open spec fn collection_name() -> Seq<char> {
        "trips"@
    }

    fn collection() -> (name: &'static str) {
        "trips"
    }
}

impl FromTT<TTTrip> for Trip {
    fn from_tt(value: TTTrip) -> (r: Trip)
        ensures
            r == (Trip {
                id: value.id,
                route: value.route,
                delay: value.delay,
                last_stop: value.last_stop,
                next_stop: value.next_stop,
                bus_id: value.bus_id,
                last_event: value.last_event,
            }),
    {
        let TTTrip { id, route, delay, last_stop, next_stop, bus_id, last_event } = value;
        Trip { id, route, delay, last_stop, next_stop, bus_id, last_event }
    }
}

/// The stops, as a kind of record.
pub struct Stops;

impl BrussType for Stops {
    open spec fn collection_name() -> Seq<char> {
        "stops"@
    }

    fn collection() -> (name: &'static str) {
        "stops"
    }
}

/// The schedules, as a kind of record: when each trip departs, with hints on its
/// route, its direction and its stops.
pub struct Schedules;

impl BrussType for Schedules {
    open spec fn collection_name() -> Seq<char> {
        "schedules"@
    }

    fn collection() -> (name: &'static str) {
        "schedules"
    }
}

/// The segments, as a kind of record: the stretches of road between two stops.
pub struct Segments;

impl BrussType for Segments {
    open spec fn collection_name() -> Seq<char> {
        "segments"@
    }

    fn collection() -> (name: &'static str) {
        "segments"
    }
}

/// The paths, as a kind of record: the sequences of stops that trips follow.
pub struct Paths;

impl BrussType for Paths {
    open spec fn collection_name() -> Seq<char> {
        "paths"@
    }

    fn collection() -> (name: &'static str) {
        "paths"
    }
}

} // verus!
