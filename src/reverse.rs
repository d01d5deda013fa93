//! The reverse-geocode adapter: one attribute row of text fields that
//! default to empty text, and one point, per response.
use vstd::prelude::*;
use crate::candidates::{push_column, schema_view};
use crate::envelope::{error_of, fallback, fallback_of, outcome_of, Decoded, Outcome};
use crate::geometry::{decode_point, point_of, xy_of, GeoPoint, PointXY, SpatialReference};
use crate::json::{field, get_field, is_json, parse_json, parsed, views, Json, JsonView, Real};
use crate::table::{blank_table, mapped, map_records, new_table, ColumnType, NullPolicy, Table, TableView};

verus! {

/// The address fields of a reverse geocode.
pub open spec fn reverse_schema() -> Seq<(Seq<char>, ColumnType)> {
    seq![
        ("Match_addr"@, ColumnType::Text),
        ("LongLabel"@, ColumnType::Text),
        ("ShortLabel"@, ColumnType::Text),
        ("Addr_type"@, ColumnType::Text),
        ("Type"@, ColumnType::Text),
        ("PlaceName"@, ColumnType::Text),
        ("AddNum"@, ColumnType::Text),
        ("Address"@, ColumnType::Text),
        ("Block"@, ColumnType::Text),
        ("Sector"@, ColumnType::Text),
        ("Neighborhood"@, ColumnType::Text),
        ("District"@, ColumnType::Text),
        ("City"@, ColumnType::Text),
        ("MetroArea"@, ColumnType::Text),
        ("Subregion"@, ColumnType::Text),
        ("Region"@, ColumnType::Text),
        ("RegionAbbr"@, ColumnType::Text),
        ("Territory"@, ColumnType::Text),
        ("Postal"@, ColumnType::Text),
        ("PostalExt"@, ColumnType::Text),
        ("CntryName"@, ColumnType::Text),
        ("CountryCode"@, ColumnType::Text),
    ]
}

/// The address fields of a reverse geocode.
pub fn reverse_columns() -> (r: Vec<(String, ColumnType)>)
    ensures
        schema_view(r@) == reverse_schema(),
{
    let mut v: Vec<(String, ColumnType)> = Vec::new();
    assert(schema_view(v@) =~= Seq::<(Seq<char>, ColumnType)>::empty());
    push_column(&mut v, "Match_addr", ColumnType::Text);
    push_column(&mut v, "LongLabel", ColumnType::Text);
    push_column(&mut v, "ShortLabel", ColumnType::Text);
    push_column(&mut v, "Addr_type", ColumnType::Text);
    push_column(&mut v, "Type", ColumnType::Text);
    push_column(&mut v, "PlaceName", ColumnType::Text);
    push_column(&mut v, "AddNum", ColumnType::Text);
    push_column(&mut v, "Address", ColumnType::Text);
    push_column(&mut v, "Block", ColumnType::Text);
    push_column(&mut v, "Sector", ColumnType::Text);
    push_column(&mut v, "Neighborhood", ColumnType::Text);
    push_column(&mut v, "District", ColumnType::Text);
    push_column(&mut v, "City", ColumnType::Text);
    push_column(&mut v, "MetroArea", ColumnType::Text);
    push_column(&mut v, "Subregion", ColumnType::Text);
    push_column(&mut v, "Region", ColumnType::Text);
    push_column(&mut v, "RegionAbbr", ColumnType::Text);
    push_column(&mut v, "Territory", ColumnType::Text);
    push_column(&mut v, "Postal", ColumnType::Text);
    push_column(&mut v, "PostalExt", ColumnType::Text);
    push_column(&mut v, "CntryName", ColumnType::Text);
    push_column(&mut v, "CountryCode", ColumnType::Text);
    assert(schema_view(v@) =~= reverse_schema());
    v
}

/// The normalised result of one reverse geocode.
#[derive(Debug, PartialEq)]
pub struct ReverseGeocodeResponse {
    pub attributes: Table,
    pub location: PointXY,
}

pub struct ReverseGeocodeResponseView {
    pub attributes: TableView,
    pub location: PointXY,
}

impl View for ReverseGeocodeResponse {
    type V = ReverseGeocodeResponseView;

    open spec fn view(&self) -> ReverseGeocodeResponseView {
        ReverseGeocodeResponseView { attributes: self.attributes@, location: self.location }
    }
}

/// The decode of a reverse-geocode response: an object `address` and a
/// point `location`, both required. The address fills a single row; a field
/// that is absent or not text is empty text.
pub open spec fn reverse_of(j: JsonView) -> Option<ReverseGeocodeResponseView> {
    match (field(j, "address"@), field(j, "location"@)) {
        (Some(a), Some(l)) => if a is Object && point_of(l) is Some {
            Some(ReverseGeocodeResponseView {
                attributes: mapped(
                    blank_table(reverse_schema(), 1, NullPolicy::EmptyDefault),
                    seq![j],
                    Some("address"@),
                    NullPolicy::EmptyDefault,
                ),
                location: xy_of(point_of(l)),
            })
        } else {
            None
        },
        _ => None,
    }
}

/// Normalises a decoded reverse-geocode response; where it does not have
/// that shape, reads it as an error envelope.
pub fn decode_reverse(j: Json) -> (r: Decoded<ReverseGeocodeResponse>)
    ensures
        r@ == outcome_of(reverse_of(j@), j@),
{
    let point = match (get_field(&j, "address"), get_field(&j, "location")) {
        (Some(a), Some(l)) => if a.is_object() {
            decode_point(l)
        } else {
            None
        },
        _ => None,
    };
    let location = match point {
        Some(p) => PointXY { x: Some(p.x), y: Some(p.y) },
        None => return fallback(&j),
    };
    let ghost g = j@;
    let recs = vec![j];
    assert(views(recs@) =~= seq![g]);
    let mut attributes = new_table(&reverse_columns(), 1, NullPolicy::EmptyDefault);
    let res = map_records(&mut attributes, &recs, Some("address"), NullPolicy::EmptyDefault);
    assert(res is Ok);
    Decoded::Parsed(ReverseGeocodeResponse { attributes, location })
}

/// Where a reverse geocode places its point.
#[derive(Clone, Copy, PartialEq, Eq, Structural, Debug)]
pub enum LocationType {
    Rooftop,
    Street,
}

/// Which city name a reverse geocode prefers in its labels.
#[derive(Clone, Copy, PartialEq, Eq, Structural, Debug)]
pub enum PreferredLabelValues {
    PostalCity,
    LocalCity,
}

/// The kind of feature that a reverse geocode matches.
#[derive(Clone, Copy, PartialEq, Eq, Structural, Debug)]
pub enum FeatureType {
    StreetInt,
    DistanceMarker,
    StreetAddress,
    StreetName,
    POI,
    Subaddress,
    PointAddress,
    Postal,
    Locality,
}

/// The parameters of one reverse-geocode request.
#[derive(Debug, PartialEq)]
pub struct ReverseGeocodeParams {
    pub location: GeoPoint,
    pub out_sr: SpatialReference,
    pub lang_code: Option<String>,
    pub for_storage: Option<bool>,
    pub feature_types: Option<FeatureType>,
    pub location_type: Option<LocationType>,
    pub preferred_label_values: Option<PreferredLabelValues>,
}

/// The default request: the origin, answered in WGS 84 (well-known id 4326),
/// with every option left to the service.
pub open spec fn default_params() -> ReverseGeocodeParams {
    ReverseGeocodeParams {
        location: GeoPoint { x: Real { bits: 0 }, y: Real { bits: 0 }, z: None, m: None, spatial_reference: None },
        out_sr: SpatialReference { wkid: Some(4326), latest_wkid: None, vcs_wkid: None, latest_vcs_wkid: None, wkt: None },
        lang_code: None,
        for_storage: None,
        feature_types: None,
        location_type: None,
        preferred_label_values: None,
    }
}

impl Default for ReverseGeocodeParams {
    fn default() -> (r: ReverseGeocodeParams)
        ensures
            r == default_params(),
    {
        ReverseGeocodeParams {
            location: GeoPoint { x: Real { bits: 0 }, y: Real { bits: 0 }, z: None, m: None, spatial_reference: None },
            out_sr: SpatialReference::from_wkid(4326),
            lang_code: None,
            for_storage: None,
            feature_types: None,
            location_type: None,
            preferred_label_values: None,
        }
    }
}

/// The outcome of the text of one reverse-geocode response: that of the
/// value it parses to, or unparsable where it is not JSON.
pub open spec fn reverse_text_outcome(x: Seq<char>) -> Outcome<ReverseGeocodeResponseView> {
    if is_json(x) {
        outcome_of(reverse_of(parsed(x)), parsed(x))
    } else {
        Outcome::Unparsable
    }
}

/// Each response is normalised on its own: two lists of texts that differ
/// only at position `j` give the same outcome at every other position.
pub proof fn lemma_reverse_outcomes_independent(a: Seq<Seq<char>>, b: Seq<Seq<char>>, j: int)
    requires
        a.len() == b.len(),
        forall|i: int| 0 <= i < a.len() && i != j ==> a[i] == b[i],
    ensures
        forall|i: int| 0 <= i < a.len() && i != j ==> #[trigger] reverse_text_outcome(a[i]) == reverse_text_outcome(b[i]),
{
}

/// A reverse-geocode response without a `location` does not decode: it is
/// read as an error envelope, and where it is none it is unparsable.
pub proof fn lemma_reverse_without_location(j: JsonView)
    requires
        field(j, "location"@) is None,
    ensures
        outcome_of(reverse_of(j), j) == fallback_of::<ReverseGeocodeResponseView>(j),
        error_of(j) is None ==> outcome_of(reverse_of(j), j) == Outcome::<ReverseGeocodeResponseView>::Unparsable,
{
}

/// Normalises the texts of reverse-geocode responses, one outcome per text,
/// in order. Text that is not JSON is unparsable; otherwise the outcome is
/// that of its decode.
pub fn parse_rev_geocode_resp(resps: &Vec<String>) -> (r: Vec<Decoded<ReverseGeocodeResponse>>)
    ensures
        r@.len() == resps@.len(),
        forall|i: int| 0 <= i < r@.len() ==> #[trigger] r@[i]@ == reverse_text_outcome(resps@[i]@),
{
    let mut out: Vec<Decoded<ReverseGeocodeResponse>> = Vec::new();
    let mut i: usize = 0;
    while i < resps.len()
        invariant
            i <= resps@.len(),
            out@.len() == i,
            forall|k: int| 0 <= k < i ==> #[trigger] out@[k]@ == reverse_text_outcome(resps@[k]@),
        decreases resps@.len() - i,
    {
        let d = match parse_json(resps[i].as_str()) {
            Some(j) => decode_reverse(j),
            None => Decoded::Unparsable,
        };
        out.push(d);
        i = i + 1;
    }
    out
}

} // verus!
