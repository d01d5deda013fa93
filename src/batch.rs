//! The batch-geocode adapter: one attribute row and one point per address,
//! the missing-point placeholder where an address was not matched.
use vstd::prelude::*;
use crate::candidates::{geocode_columns, geocode_schema};
use crate::envelope::{fallback, outcome_of, Decoded, Outcome};
use crate::geometry::{
    decode_point, decode_spatial_reference, opt_string, point_of, read_opt_string, read_req_real, req_real,
    missing_point, spatial_reference_of, xy_of, GeoPointView, Member, PointXY, SpatialReference,
    SpatialReferenceView,
};
use crate::json::{field, get_field, is_json, lemma_array_views, parse_json, parsed, views, Json, JsonView};
use crate::table::{blank_table, mapped, map_records, new_table, NullPolicy, Table, TableView};

verus! {

/// The normalised result of a batch geocode: one attribute row and one
/// point per address, in the order given.
#[derive(Debug, PartialEq)]
pub struct GeocodeAdddressesResults {
    pub attributes: Table,
    pub locations: Vec<PointXY>,
    pub spatial_reference: SpatialReference,
}

pub struct GeocodeAdddressesResultsView {
    pub attributes: TableView,
    pub locations: Seq<PointXY>,
    pub spatial_reference: SpatialReferenceView,
}

impl View for GeocodeAdddressesResults {
    type V = GeocodeAdddressesResultsView;

    open spec fn view(&self) -> GeocodeAdddressesResultsView {
        GeocodeAdddressesResultsView {
            attributes: self.attributes@,
            locations: self.locations@,
            spatial_reference: self.spatial_reference@,
        }
    }
}

/// An optional point member: absent or null is none.
pub open spec fn opt_point(f: Member) -> Option<Option<GeoPointView>> {
    match f {
        None => Some(None),
        Some(JsonView::Null) => Some(None),
        Some(j) => match point_of(j) {
            Some(p) => Some(Some(p)),
            None => None,
        },
    }
}

/// A geocoded address decodes: an object with an optional text `address`,
/// an optional point `location`, a number `score` and an object `attributes`.
pub open spec fn location_ok(l: JsonView) -> bool {
    &&& l is Object
    &&& opt_string(field(l, "address"@)) is Some
    &&& opt_point(field(l, "location"@)) is Some
    &&& req_real(field(l, "score"@)) is Some
    &&& field(l, "attributes"@) is Some && field(l, "attributes"@)->0 is Object
}

/// The coordinate pair of a geocoded address that decodes: the
/// missing-point placeholder where it has no location.
pub open spec fn location_xy(l: JsonView) -> PointXY {
    xy_of(opt_point(field(l, "location"@))->0)
}

/// The decode of a batch-geocode response: a spatial reference and an array
/// of geocoded addresses that all decode.
pub open spec fn addresses_of(j: JsonView) -> Option<GeocodeAdddressesResultsView> {
    match (field(j, "locations"@), field(j, "spatialReference"@)) {
        (Some(JsonView::Array(ls)), Some(s)) => match spatial_reference_of(s) {
            Some(sr) => if forall|i: int| 0 <= i < ls.len() ==> location_ok(#[trigger] ls[i]) {
                Some(GeocodeAdddressesResultsView {
                    attributes: mapped(
                        blank_table(geocode_schema(), ls.len(), NullPolicy::EmptyAsNull),
                        ls,
                        Some("attributes"@),
                        NullPolicy::EmptyAsNull,
                    ),
                    locations: Seq::new(ls.len(), |i: int| location_xy(ls[i])),
                    spatial_reference: sr,
                })
            } else {
                None
            },
            None => None,
        },
        _ => None,
    }
}

/// The number of geocoded addresses of a response.
pub open spec fn address_count(j: JsonView) -> nat {
    match field(j, "locations"@) {
        Some(JsonView::Array(ls)) => ls.len(),
        _ => 0,
    }
}

/// In a batch-geocode response that decodes, an address without a
/// `location` gives the missing-point placeholder at its own position, and
/// no row is dropped: there is one point and one attribute row per address.
pub proof fn lemma_unmatched_address_kept(j: JsonView, i: int)
    requires
        addresses_of(j) is Some,
        0 <= i < address_count(j),
        field(field(j, "locations"@)->0->Array_0[i], "location"@) is None,
    ensures
        ({
            let v = addresses_of(j)->0;
            &&& v.locations[i] == missing_point()
            &&& v.locations.len() == address_count(j)
            &&& v.attributes.nrows == address_count(j)
        }),
{
}

/// Decodes one geocoded address into its coordinate pair.
fn decode_location(l: &Json) -> (r: Option<PointXY>)
    ensures
        r is Some <==> location_ok(l@),
        r is Some ==> r->0 == location_xy(l@),
{
    if !l.is_object() {
        return None;
    }
    if read_opt_string(get_field(l, "address")).is_none() || read_req_real(get_field(l, "score")).is_none() {
        return None;
    }
    let point = match get_field(l, "location") {
        None => None,
        Some(Json::Null) => None,
        Some(p) => match decode_point(p) {
            Some(p) => Some(p),
            None => return None,
        },
    };
    match get_field(l, "attributes") {
        Some(a) => if !a.is_object() {
            return None;
        },
        None => return None,
    }
    match point {
        Some(p) => Some(PointXY { x: Some(p.x), y: Some(p.y) }),
        None => Some(PointXY::missing()),
    }
}

/// Normalises a decoded batch-geocode response; where it does not have that
/// shape, reads it as an error envelope.
pub fn decode_locations(j: &Json) -> (r: Decoded<GeocodeAdddressesResults>)
    ensures
        r@ == outcome_of(addresses_of(j@), j@),
{
    let ls = match get_field(j, "locations") {
        Some(Json::Array(ls)) => ls,
        _ => return fallback(j),
    };
    proof {
        lemma_array_views(*ls);
    }
    let sr = match get_field(j, "spatialReference") {
        Some(s) => match decode_spatial_reference(s) {
            Some(sr) => sr,
            None => return fallback(j),
        },
        None => return fallback(j),
    };
    let mut locations: Vec<PointXY> = Vec::new();
    let mut i: usize = 0;
    while i < ls.len()
        invariant
            field(j@, "locations"@) == Some(JsonView::Array(views(ls@))),
            i <= ls@.len(),
            locations@.len() == i,
            forall|k: int| 0 <= k < i ==> location_ok(#[trigger] views(ls@)[k]),
            forall|k: int| 0 <= k < i ==> #[trigger] locations@[k] == location_xy(views(ls@)[k]),
        decreases ls@.len() - i,
    {
        match decode_location(&ls[i]) {
            Some(xy) => locations.push(xy),
            None => {
                assert(!location_ok(views(ls@)[i as int]));
                return fallback(j);
            },
        }
        assert(views(ls@)[i as int] == ls@[i as int]@);
        i = i + 1;
    }
    let mut attributes = new_table(&geocode_columns(), ls.len(), NullPolicy::EmptyAsNull);
    let res = map_records(&mut attributes, ls, Some("attributes"), NullPolicy::EmptyAsNull);
    assert(res is Ok);
    assert(locations@ =~= Seq::new(ls@.len(), |k: int| location_xy(views(ls@)[k])));
    Decoded::Parsed(GeocodeAdddressesResults { attributes, locations, spatial_reference: sr })
}

/// Normalises the text of a batch-geocode response. Text that is not JSON
/// is unparsable; otherwise the outcome is that of its decode.
pub fn parse_location_json(x: &str) -> (r: Decoded<GeocodeAdddressesResults>)
    ensures
        r@ == if is_json(x@) {
            outcome_of(addresses_of(parsed(x@)), parsed(x@))
        } else {
            Outcome::Unparsable
        },
{
    match parse_json(x) {
        Some(j) => decode_locations(&j),
        None => Decoded::Unparsable,
    }
}

} // verus!
