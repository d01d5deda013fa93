//! The candidate-search adapter, and the attribute schema that it shares
//! with batch geocoding.
use vstd::prelude::*;
use crate::envelope::{fallback, outcome_of, Decoded, Outcome};
use crate::geometry::{
    bounding_box_of, decode_bounding_box, decode_point, decode_spatial_reference, opt_string, point_of,
    read_opt_string, read_req_real, req_real, spatial_reference_of, xy_of, Extent, PointXY,
    SpatialReference, SpatialReferenceView,
};
use crate::json::{field, get_field, is_json, lemma_array_views, parse_json, parsed, views, Json, JsonView};
use crate::table::{blank_table, mapped, map_records, new_table, ColumnType, NullPolicy, Table, TableView};

verus! {

/// A schema as its column names and types.
pub open spec fn schema_view(v: Seq<(String, ColumnType)>) -> Seq<(Seq<char>, ColumnType)> {
    v.map_values(|e: (String, ColumnType)| (e.0@, e.1))
}

/// Appends a column to a schema.
pub fn push_column(v: &mut Vec<(String, ColumnType)>, name: &str, ty: ColumnType)
    ensures
        schema_view(final(v)@) == schema_view(old(v)@).push((name@, ty)),
{
    v.push((String::from_str(name), ty));
    assert(schema_view(v@) =~= schema_view(old(v)@).push((name@, ty)));
}

/// The attribute columns of a geocoded candidate.
pub open spec fn geocode_schema() -> Seq<(Seq<char>, ColumnType)> {
    seq![
        ("ResultID"@, ColumnType::Integer),
        ("Loc_name"@, ColumnType::Text),
        ("Status"@, ColumnType::Text),
        ("Score"@, ColumnType::Float),
        ("Match_addr"@, ColumnType::Text),
        ("LongLabel"@, ColumnType::Text),
        ("ShortLabel"@, ColumnType::Text),
        ("Addr_type"@, ColumnType::Text),
        ("Type"@, ColumnType::Text),
        ("PlaceName"@, ColumnType::Text),
        ("Place_addr"@, ColumnType::Text),
        ("Phone"@, ColumnType::Text),
        ("URL"@, ColumnType::Text),
        ("Rank"@, ColumnType::Float),
        ("AddBldg"@, ColumnType::Text),
        ("AddNum"@, ColumnType::Text),
        ("AddNumFrom"@, ColumnType::Text),
        ("AddNumTo"@, ColumnType::Text),
        ("AddRange"@, ColumnType::Text),
        ("Side"@, ColumnType::Text),
        ("StPreDir"@, ColumnType::Text),
        ("StPreType"@, ColumnType::Text),
        ("StName"@, ColumnType::Text),
        ("StType"@, ColumnType::Text),
        ("StDir"@, ColumnType::Text),
        ("BldgType"@, ColumnType::Text),
        ("BldgName"@, ColumnType::Text),
        ("LevelType"@, ColumnType::Text),
        ("LevelName"@, ColumnType::Text),
        ("UnitType"@, ColumnType::Text),
        ("UnitName"@, ColumnType::Text),
        ("SubAddr"@, ColumnType::Text),
        ("StAddr"@, ColumnType::Text),
        ("Block"@, ColumnType::Text),
        ("Sector"@, ColumnType::Text),
        ("Nbrhd"@, ColumnType::Text),
        ("District"@, ColumnType::Text),
        ("City"@, ColumnType::Text),
        ("MetroArea"@, ColumnType::Text),
        ("Subregion"@, ColumnType::Text),
        ("Region"@, ColumnType::Text),
        ("RegionAbbr"@, ColumnType::Text),
        ("Territory"@, ColumnType::Text),
        ("Zone"@, ColumnType::Text),
        ("Postal"@, ColumnType::Text),
        ("PostalExt"@, ColumnType::Text),
        ("Country"@, ColumnType::Text),
        ("CntryName"@, ColumnType::Text),
        ("LangCode"@, ColumnType::Text),
        ("Distance"@, ColumnType::Float),
        ("X"@, ColumnType::Float),
        ("Y"@, ColumnType::Float),
        ("DisplayX"@, ColumnType::Float),
        ("DisplayY"@, ColumnType::Float),
        ("Xmin"@, ColumnType::Float),
        ("Xmax"@, ColumnType::Float),
        ("Ymin"@, ColumnType::Float),
        ("Ymax"@, ColumnType::Float),
        ("ExInfo"@, ColumnType::Text),
    ]
}

/// The attribute columns of a geocoded candidate.
pub fn geocode_columns() -> (r: Vec<(String, ColumnType)>)
    ensures
        schema_view(r@) == geocode_schema(),
{
    let mut v: Vec<(String, ColumnType)> = Vec::new();
    assert(schema_view(v@) =~= Seq::<(Seq<char>, ColumnType)>::empty());
    push_column(&mut v, "ResultID", ColumnType::Integer);
    push_column(&mut v, "Loc_name", ColumnType::Text);
    push_column(&mut v, "Status", ColumnType::Text);
    push_column(&mut v, "Score", ColumnType::Float);
    push_column(&mut v, "Match_addr", ColumnType::Text);
    push_column(&mut v, "LongLabel", ColumnType::Text);
    push_column(&mut v, "ShortLabel", ColumnType::Text);
    push_column(&mut v, "Addr_type", ColumnType::Text);
    push_column(&mut v, "Type", ColumnType::Text);
    push_column(&mut v, "PlaceName", ColumnType::Text);
    push_column(&mut v, "Place_addr", ColumnType::Text);
    push_column(&mut v, "Phone", ColumnType::Text);
    push_column(&mut v, "URL", ColumnType::Text);
    push_column(&mut v, "Rank", ColumnType::Float);
    push_column(&mut v, "AddBldg", ColumnType::Text);
    push_column(&mut v, "AddNum", ColumnType::Text);
    push_column(&mut v, "AddNumFrom", ColumnType::Text);
    push_column(&mut v, "AddNumTo", ColumnType::Text);
    push_column(&mut v, "AddRange", ColumnType::Text);
    push_column(&mut v, "Side", ColumnType::Text);
    push_column(&mut v, "StPreDir", ColumnType::Text);
    push_column(&mut v, "StPreType", ColumnType::Text);
    push_column(&mut v, "StName", ColumnType::Text);
    push_column(&mut v, "StType", ColumnType::Text);
    push_column(&mut v, "StDir", ColumnType::Text);
    push_column(&mut v, "BldgType", ColumnType::Text);
    push_column(&mut v, "BldgName", ColumnType::Text);
    push_column(&mut v, "LevelType", ColumnType::Text);
    push_column(&mut v, "LevelName", ColumnType::Text);
    push_column(&mut v, "UnitType", ColumnType::Text);
    push_column(&mut v, "UnitName", ColumnType::Text);
    push_column(&mut v, "SubAddr", ColumnType::Text);
    push_column(&mut v, "StAddr", ColumnType::Text);
    push_column(&mut v, "Block", ColumnType::Text);
    push_column(&mut v, "Sector", ColumnType::Text);
    push_column(&mut v, "Nbrhd", ColumnType::Text);
    push_column(&mut v, "District", ColumnType::Text);
    push_column(&mut v, "City", ColumnType::Text);
    push_column(&mut v, "MetroArea", ColumnType::Text);
    push_column(&mut v, "Subregion", ColumnType::Text);
    push_column(&mut v, "Region", ColumnType::Text);
    push_column(&mut v, "RegionAbbr", ColumnType::Text);
    push_column(&mut v, "Territory", ColumnType::Text);
    push_column(&mut v, "Zone", ColumnType::Text);
    push_column(&mut v, "Postal", ColumnType::Text);
    push_column(&mut v, "PostalExt", ColumnType::Text);
    push_column(&mut v, "Country", ColumnType::Text);
    push_column(&mut v, "CntryName", ColumnType::Text);
    push_column(&mut v, "LangCode", ColumnType::Text);
    push_column(&mut v, "Distance", ColumnType::Float);
    push_column(&mut v, "X", ColumnType::Float);
    push_column(&mut v, "Y", ColumnType::Float);
    push_column(&mut v, "DisplayX", ColumnType::Float);
    push_column(&mut v, "DisplayY", ColumnType::Float);
    push_column(&mut v, "Xmin", ColumnType::Float);
    push_column(&mut v, "Xmax", ColumnType::Float);
    push_column(&mut v, "Ymin", ColumnType::Float);
    push_column(&mut v, "Ymax", ColumnType::Float);
    push_column(&mut v, "ExInfo", ColumnType::Text);
    assert(schema_view(v@) =~= geocode_schema());
    v
}

/// The normalised result of a candidate search: one attribute row, one
/// point and one bounding box per candidate, in the order given.
#[derive(Debug, PartialEq)]
pub struct FindCandidatesResponse {
    pub attributes: Table,
    pub locations: Vec<PointXY>,
    pub extents: Vec<Extent>,
    pub spatial_reference: SpatialReference,
}

pub struct FindCandidatesResponseView {
    pub attributes: TableView,
    pub locations: Seq<PointXY>,
    pub extents: Seq<Extent>,
    pub spatial_reference: SpatialReferenceView,
}

impl View for FindCandidatesResponse {
    type V = FindCandidatesResponseView;

    open spec fn view(&self) -> FindCandidatesResponseView {
        FindCandidatesResponseView {
            attributes: self.attributes@,
            locations: self.locations@,
            extents: self.extents@,
            spatial_reference: self.spatial_reference@,
        }
    }
}

/// A candidate decodes: an object with an optional text `address`, a point
/// `location`, a number `score`, an object `attributes` and a bounding box
/// `extent`.
pub open spec fn candidate_ok(c: JsonView) -> bool {
    &&& c is Object
    &&& opt_string(field(c, "address"@)) is Some
    &&& field(c, "location"@) is Some && point_of(field(c, "location"@)->0) is Some
    &&& req_real(field(c, "score"@)) is Some
    &&& field(c, "attributes"@) is Some && field(c, "attributes"@)->0 is Object
    &&& field(c, "extent"@) is Some && bounding_box_of(field(c, "extent"@)->0) is Some
}

/// The coordinate pair of a candidate that decodes.
pub open spec fn candidate_location(c: JsonView) -> PointXY {
    xy_of(point_of(field(c, "location"@)->0))
}

/// The bounding box of a candidate that decodes.
pub open spec fn candidate_extent(c: JsonView) -> Extent {
    bounding_box_of(field(c, "extent"@)->0)->0
}

/// The decode of a candidate-search response: a spatial reference and an
/// array of candidates that all decode.
pub open spec fn candidates_of(j: JsonView) -> Option<FindCandidatesResponseView> {
    match (field(j, "candidates"@), field(j, "spatialReference"@)) {
        (Some(JsonView::Array(cs)), Some(s)) => match spatial_reference_of(s) {
            Some(sr) => if forall|i: int| 0 <= i < cs.len() ==> candidate_ok(#[trigger] cs[i]) {
                Some(FindCandidatesResponseView {
                    attributes: mapped(
                        blank_table(geocode_schema(), cs.len(), NullPolicy::EmptyAsNull),
                        cs,
                        Some("attributes"@),
                        NullPolicy::EmptyAsNull,
                    ),
                    locations: Seq::new(cs.len(), |i: int| candidate_location(cs[i])),
                    extents: Seq::new(cs.len(), |i: int| candidate_extent(cs[i])),
                    spatial_reference: sr,
                })
            } else {
                None
            },
            None => None,
        },
        _ => None,
    }
}

/// The number of candidates of a response.
pub open spec fn candidate_count(j: JsonView) -> nat {
    match field(j, "candidates"@) {
        Some(JsonView::Array(cs)) => cs.len(),
        _ => 0,
    }
}

/// A candidate-search response that decodes gives as many attribute rows,
/// points and bounding boxes as it has candidates, and every attribute
/// column has a cell for each.
pub proof fn lemma_candidates_aligned(j: JsonView)
    requires
        candidates_of(j) is Some,
    ensures
        ({
            let v = candidates_of(j)->0;
            &&& v.attributes.nrows == candidate_count(j)
            &&& v.locations.len() == candidate_count(j)
            &&& v.extents.len() == candidate_count(j)
            &&& forall|c: int| 0 <= c < v.attributes.columns.len() ==>
                (#[trigger] v.attributes.columns[c]).cells.len() == candidate_count(j)
        }),
{
}

/// Decodes one candidate into its coordinate pair and bounding box.
fn decode_candidate(c: &Json) -> (r: Option<(PointXY, Extent)>)
    ensures
        r is Some <==> candidate_ok(c@),
        r is Some ==> r->0 == (candidate_location(c@), candidate_extent(c@)),
{
    if !c.is_object() {
        return None;
    }
    if read_opt_string(get_field(c, "address")).is_none() || read_req_real(get_field(c, "score")).is_none() {
        return None;
    }
    let location = match get_field(c, "location") {
        Some(l) => match decode_point(l) {
            Some(p) => p,
            None => return None,
        },
        None => return None,
    };
    match get_field(c, "attributes") {
        Some(a) => if !a.is_object() {
            return None;
        },
        None => return None,
    }
    let extent = match get_field(c, "extent") {
        Some(e) => match decode_bounding_box(e) {
            Some(b) => b,
            None => return None,
        },
        None => return None,
    };
    let xy = PointXY { x: Some(location.x), y: Some(location.y) };
    Some((xy, extent))
}

/// Normalises a decoded candidate-search response; where it does not have
/// that shape, reads it as an error envelope.
pub fn decode_candidates(j: &Json) -> (r: Decoded<FindCandidatesResponse>)
    ensures
        r@ == outcome_of(candidates_of(j@), j@),
{
    let cs = match get_field(j, "candidates") {
        Some(Json::Array(cs)) => cs,
        _ => return fallback(j),
    };
    proof {
        lemma_array_views(*cs);
    }
    let sr = match get_field(j, "spatialReference") {
        Some(s) => match decode_spatial_reference(s) {
            Some(sr) => sr,
            None => return fallback(j),
        },
        None => return fallback(j),
    };
    let mut locations: Vec<PointXY> = Vec::new();
    let mut extents: Vec<Extent> = Vec::new();
    let mut i: usize = 0;
    while i < cs.len()
        invariant
            field(j@, "candidates"@) == Some(JsonView::Array(views(cs@))),
            i <= cs@.len(),
            locations@.len() == i,
            extents@.len() == i,
            forall|k: int| 0 <= k < i ==> candidate_ok(#[trigger] views(cs@)[k]),
            forall|k: int| 0 <= k < i ==> #[trigger] locations@[k] == candidate_location(views(cs@)[k]),
            forall|k: int| 0 <= k < i ==> #[trigger] extents@[k] == candidate_extent(views(cs@)[k]),
        decreases cs@.len() - i,
    {
        match decode_candidate(&cs[i]) {
            Some((xy, b)) => {
                locations.push(xy);
                extents.push(b);
            },
            None => {
                assert(!candidate_ok(views(cs@)[i as int]));
                return fallback(j);
            },
        }
        assert(views(cs@)[i as int] == cs@[i as int]@);
        i = i + 1;
    }
    let mut attributes = new_table(&geocode_columns(), cs.len(), NullPolicy::EmptyAsNull);
    let res = map_records(&mut attributes, cs, Some("attributes"), NullPolicy::EmptyAsNull);
    assert(res is Ok);
    assert(locations@ =~= Seq::new(cs@.len(), |k: int| candidate_location(views(cs@)[k])));
    assert(extents@ =~= Seq::new(cs@.len(), |k: int| candidate_extent(views(cs@)[k])));
    Decoded::Parsed(FindCandidatesResponse { attributes, locations, extents, spatial_reference: sr })
}

/// Normalises the text of a candidate-search response. Text that is not
/// JSON is unparsable; otherwise the outcome is that of its decode.
pub fn parse_candidate_json(x: &str) -> (r: Decoded<FindCandidatesResponse>)
    ensures
        r@ == if is_json(x@) {
            outcome_of(candidates_of(parsed(x@)), parsed(x@))
        } else {
            Outcome::Unparsable
        },
{
    match parse_json(x) {
        Some(j) => decode_candidates(&j),
        None => Decoded::Unparsable,
    }
}

} // verus!
