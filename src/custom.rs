//! The generic path: a response whose records carry attribute objects is
//! mapped into a table that the caller allocated, whose columns decide what
//! is kept.
use vstd::prelude::*;
use crate::batch::opt_point;
use crate::geometry::{
    decode_point, decode_spatial_reference, spatial_reference_of, xy_of, PointXY, SpatialReference,
    SpatialReferenceView,
};
use crate::envelope::{api_message, decode_error, digits, digits_text, error_of, unparsable_message, ErrorEnvelope};
use crate::json::{field, get_field, is_json, lemma_array_views, parse_json, parsed, views, Json, JsonView};
use crate::table::{mapped, map_records, NullPolicy, SchemaMismatch, Table, TableView};

verus! {

/// Why a response could not be mapped into a table.
#[derive(Debug, PartialEq)]
pub enum MapError {
    /// The response is not JSON, or its records do not decode, and it is no
    /// error envelope.
    Unparsable,
    /// The response is an error envelope.
    ApiError(ErrorEnvelope),
    /// The number of records is not the number of rows of the table.
    SchemaMismatch(SchemaMismatch),
}

/// The diagnostic for a row-count mismatch.
pub open spec fn mismatch_message(m: SchemaMismatch) -> Seq<char> {
    "Error occured mapping the response: "@ + digits(m.records as nat) + " records for a table of "@
        + digits(m.rows as nat) + " rows"@
}

impl MapError {
    /// The diagnostic for this error.
    pub fn message(&self) -> (r: String)
        ensures
            r@ == match *self {
                MapError::Unparsable => unparsable_message(),
                MapError::ApiError(e) => api_message(e@),
                MapError::SchemaMismatch(m) => mismatch_message(m),
            },
    {
        match self {
            MapError::Unparsable => String::from_str("Error occured parsing : unexpected response shape"),
            MapError::ApiError(e) => e.message_text(),
            MapError::SchemaMismatch(m) => {
                let mut s = String::from_str("Error occured mapping the response: ");
                s.append(digits_text(m.records as u64).as_str());
                s.append(" records for a table of ");
                s.append(digits_text(m.rows as u64).as_str());
                s.append(" rows");
                s
            },
        }
    }
}

/// What the generic path returns beside the filled table.
#[derive(Debug, PartialEq)]
pub struct CustomLocations {
    /// One coordinate pair per record, in order: the record's point, or the
    /// missing-point placeholder where it has none.
    pub locations: Vec<PointXY>,
    /// The response's spatial reference, where it has one that decodes.
    pub spatial_reference: Option<SpatialReference>,
}

/// A record decodes: an object with an object `attributes`, and a
/// `location` that is absent, null or a point.
pub open spec fn record_ok(rec: JsonView) -> bool {
    &&& rec is Object
    &&& field(rec, "attributes"@) is Some && field(rec, "attributes"@)->0 is Object
    &&& opt_point(field(rec, "location"@)) is Some
}

/// The records of a response: its array `locations`, where every record
/// decodes.
pub open spec fn records_of(j: JsonView) -> Option<Seq<JsonView>> {
    match field(j, "locations"@) {
        Some(JsonView::Array(ls)) => if forall|i: int| 0 <= i < ls.len() ==> record_ok(#[trigger] ls[i]) {
            Some(ls)
        } else {
            None
        },
        _ => None,
    }
}

/// The spatial reference of a response, where it has one that decodes.
pub open spec fn response_reference(j: JsonView) -> Option<SpatialReferenceView> {
    match field(j, "spatialReference"@) {
        Some(s) => spatial_reference_of(s),
        None => None,
    }
}

/// What an optional spatial reference holds.
pub open spec fn opt_reference_view(o: Option<SpatialReference>) -> Option<SpatialReferenceView> {
    match o {
        Some(s) => Some(s@),
        None => None,
    }
}

/// The coordinate pairs of records that decode: each record's point, or the
/// missing-point placeholder.
pub open spec fn record_points(ls: Seq<JsonView>) -> Seq<PointXY> {
    Seq::new(ls.len(), |i: int| xy_of(opt_point(field(ls[i], "location"@))->0))
}

/// `r` is the failure of a response whose records do not decode: the error
/// envelope where it is one, else unparsable.
pub open spec fn failed_as(r: Result<CustomLocations, MapError>, j: JsonView) -> bool {
    match r {
        Err(MapError::ApiError(e)) => error_of(j) == Some(e@),
        Err(MapError::Unparsable) => error_of(j) is None,
        _ => false,
    }
}

/// The outcome of mapping the response `j` into a table that was `before`
/// and is `after`: a failure leaves the table as it was; otherwise record
/// `i` has written its `attributes` into row `i`.
pub open spec fn custom_result(
    r: Result<CustomLocations, MapError>,
    before: TableView,
    after: TableView,
    j: JsonView,
) -> bool {
    match records_of(j) {
        None => failed_as(r, j) && after == before,
        Some(ls) => if ls.len() != before.nrows {
            &&& (r matches Err(MapError::SchemaMismatch(m)) && m.rows == before.nrows && m.records == ls.len())
            &&& after == before
        } else {
            &&& r is Ok
            &&& after == mapped(before, ls, Some("attributes"@), NullPolicy::Lenient)
            &&& r->Ok_0.locations@ == record_points(ls)
            &&& opt_reference_view(r->Ok_0.spatial_reference) == response_reference(j)
        },
    }
}

/// The failure of a response whose records do not decode.
fn failure(j: &Json) -> (r: MapError)
    ensures
        failed_as(Err(r), j@),
{
    match decode_error(j) {
        Some(e) => MapError::ApiError(e),
        None => MapError::Unparsable,
    }
}

/// Decodes one record into its coordinate pair.
fn decode_record(rec: &Json) -> (r: Option<PointXY>)
    ensures
        r is Some <==> record_ok(rec@),
        r is Some ==> r->0 == xy_of(opt_point(field(rec@, "location"@))->0),
{
    if !rec.is_object() {
        return None;
    }
    match get_field(rec, "attributes") {
        Some(a) => if !a.is_object() {
            return None;
        },
        None => return None,
    }
    match get_field(rec, "location") {
        None => Some(PointXY::missing()),
        Some(Json::Null) => Some(PointXY::missing()),
        Some(l) => match decode_point(l) {
            Some(p) => Some(PointXY { x: Some(p.x), y: Some(p.y) }),
            None => None,
        },
    }
}

/// Maps the records of a decoded response into `table`: record `i` writes
/// its member `attributes` into row `i`, and gives the `i`-th coordinate
/// pair. Where the records do not decode, the response is read as an error
/// envelope; on any failure the table is left as it was.
pub fn map_locations(j: &Json, table: &mut Table) -> (r: Result<CustomLocations, MapError>)
    requires
        old(table)@.wf(),
    ensures
        final(table)@.wf(),
        custom_result(r, old(table)@, final(table)@, j@),
{
    let ls = match get_field(j, "locations") {
        Some(Json::Array(ls)) => ls,
        _ => return Err(failure(j)),
    };
    proof {
        lemma_array_views(*ls);
    }
    let mut locations: Vec<PointXY> = Vec::new();
    let mut i: usize = 0;
    while i < ls.len()
        invariant
            field(j@, "locations"@) == Some(JsonView::Array(views(ls@))),
            table@ == old(table)@,
            table@.wf(),
            i <= ls@.len(),
            locations@.len() == i,
            forall|k: int| 0 <= k < i ==> record_ok(#[trigger] views(ls@)[k]),
            forall|k: int| 0 <= k < i ==> #[trigger] locations@[k] == xy_of(
                opt_point(field(views(ls@)[k], "location"@))->0,
            ),
        decreases ls@.len() - i,
    {
        assert(views(ls@)[i as int] == ls@[i as int]@);
        match decode_record(&ls[i]) {
            Some(xy) => locations.push(xy),
            None => {
                assert(!record_ok(views(ls@)[i as int]));
                return Err(failure(j));
            },
        }
        i = i + 1;
    }
    assert(records_of(j@) == Some(views(ls@)));
    match map_records(table, ls, Some("attributes"), NullPolicy::Lenient) {
        Ok(()) => {},
        Err(e) => return Err(MapError::SchemaMismatch(e)),
    }
    assert(locations@ =~= record_points(views(ls@)));
    let spatial_reference = match get_field(j, "spatialReference") {
        Some(s) => decode_spatial_reference(s),
        None => None,
    };
    Ok(CustomLocations { locations, spatial_reference })
}

/// Maps the records of the text of a response into `table`, as
/// `map_locations` does for the value it parses to; text that is not JSON
/// is unparsable. On any error the table is left as it was.
pub fn parse_custom_location_json(x: &str, table: &mut Table) -> (r: Result<CustomLocations, MapError>)
    requires
        old(table)@.wf(),
    ensures
        final(table)@.wf(),
        !is_json(x@) ==> (r matches Err(MapError::Unparsable)) && final(table)@ == old(table)@,
        is_json(x@) ==> custom_result(r, old(table)@, final(table)@, parsed(x@)),
{
    match parse_json(x) {
        Some(j) => map_locations(&j, table),
        None => Err(MapError::Unparsable),
    }
}

} // verus!
