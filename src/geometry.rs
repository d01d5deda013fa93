//! Spatial references, points and bounding boxes: their strict decoding from
//! JSON, and the extraction of one coordinate pair per record.
use vstd::prelude::*;
use crate::json::{field, get_field, opt_view, Json, JsonView, Real};

verus! {

/// The member of an object that a strict decode reads, where the object has it.
pub type Member = Option<JsonView>;

/// An optional integer member: absent or null is no value, an integer within
/// 32 bits is that value, anything else fails the decode.
pub open spec fn opt_i32(f: Member) -> Option<Option<i32>> {
    match f {
        None => Some(None),
        Some(JsonView::Null) => Some(None),
        Some(JsonView::Number(n)) => match n.int {
            Some(i) => if i32::MIN <= i <= i32::MAX {
                Some(Some(i as i32))
            } else {
                None
            },
            None => None,
        },
        _ => None,
    }
}

/// A required number member.
pub open spec fn req_real(f: Member) -> Option<Real> {
    match f {
        Some(JsonView::Number(n)) => n.real,
        _ => None,
    }
}

/// An optional number member.
pub open spec fn opt_real(f: Member) -> Option<Option<Real>> {
    match f {
        None => Some(None),
        Some(JsonView::Null) => Some(None),
        Some(JsonView::Number(n)) => match n.real {
            Some(r) => Some(Some(r)),
            None => None,
        },
        _ => None,
    }
}

/// An optional text member.
pub open spec fn opt_string(f: Member) -> Option<Option<Seq<char>>> {
    match f {
        None => Some(None),
        Some(JsonView::Null) => Some(None),
        Some(JsonView::Str(s)) => Some(Some(s)),
        _ => None,
    }
}

/// Reads an optional integer member strictly.
pub fn read_opt_i32(f: Option<&Json>) -> (r: Option<Option<i32>>)
    ensures
        r == opt_i32(opt_view(f)),
{
    match f {
        None => Some(None),
        Some(Json::Null) => Some(None),
        Some(Json::Number(n)) => match n.int {
            Some(i) => if i32::MIN as i64 <= i && i <= i32::MAX as i64 {
                Some(Some(i as i32))
            } else {
                None
            },
            None => None,
        },
        _ => None,
    }
}

/// Reads a required number member strictly.
pub fn read_req_real(f: Option<&Json>) -> (r: Option<Real>)
    ensures
        r == req_real(opt_view(f)),
{
    match f {
        Some(Json::Number(n)) => n.real,
        _ => None,
    }
}

/// Reads an optional number member strictly.
pub fn read_opt_real(f: Option<&Json>) -> (r: Option<Option<Real>>)
    ensures
        r == opt_real(opt_view(f)),
{
    match f {
        None => Some(None),
        Some(Json::Null) => Some(None),
        Some(Json::Number(n)) => match n.real {
            Some(r) => Some(Some(r)),
            None => None,
        },
        _ => None,
    }
}

/// Reads an optional text member strictly.
pub fn read_opt_string(f: Option<&Json>) -> (r: Option<Option<String>>)
    ensures
        match r {
            Some(Some(s)) => opt_string(opt_view(f)) == Some(Some(s@)),
            Some(None) => opt_string(opt_view(f)) == Some(None::<Seq<char>>),
            None => opt_string(opt_view(f)) is None,
        },
{
    match f {
        None => Some(None),
        Some(Json::Null) => Some(None),
        Some(Json::Str(s)) => Some(Some(s.clone())),
        _ => None,
    }
}

/// A spatial reference: well-known ids of the horizontal and vertical
/// coordinate systems, or their well-known text.
#[derive(Debug, PartialEq)]
pub struct SpatialReference {
    pub wkid: Option<i32>,
    pub latest_wkid: Option<i32>,
    pub vcs_wkid: Option<i32>,
    pub latest_vcs_wkid: Option<i32>,
    pub wkt: Option<String>,
}

pub struct SpatialReferenceView {
    pub wkid: Option<i32>,
    pub latest_wkid: Option<i32>,
    pub vcs_wkid: Option<i32>,
    pub latest_vcs_wkid: Option<i32>,
    pub wkt: Option<Seq<char>>,
}

impl View for SpatialReference {
    type V = SpatialReferenceView;

    open spec fn view(&self) -> SpatialReferenceView {
        SpatialReferenceView {
            wkid: self.wkid,
            latest_wkid: self.latest_wkid,
            vcs_wkid: self.vcs_wkid,
            latest_vcs_wkid: self.latest_vcs_wkid,
            wkt: match self.wkt {
                Some(s) => Some(s@),
                None => None,
            },
        }
    }
}

/// The strict decode of a spatial reference: an object whose members, where
/// present and not null, have their declared types.
pub open spec fn spatial_reference_of(j: JsonView) -> Option<SpatialReferenceView> {
    let wkid = opt_i32(field(j, "wkid"@));
    let latest_wkid = opt_i32(field(j, "latestWkid"@));
    let vcs_wkid = opt_i32(field(j, "vcsWkid"@));
    let latest_vcs_wkid = opt_i32(field(j, "latestVcsWkid"@));
    let wkt = opt_string(field(j, "wkt"@));
    if j is Object && wkid is Some && latest_wkid is Some && vcs_wkid is Some
        && latest_vcs_wkid is Some && wkt is Some {
        Some(SpatialReferenceView {
            wkid: wkid->0,
            latest_wkid: latest_wkid->0,
            vcs_wkid: vcs_wkid->0,
            latest_vcs_wkid: latest_vcs_wkid->0,
            wkt: wkt->0,
        })
    } else {
        None
    }
}

impl SpatialReference {
    /// A spatial reference of the well-known id `wkid` alone.
    pub fn from_wkid(wkid: i32) -> (r: SpatialReference)
        ensures
            r == (SpatialReference { wkid: Some(wkid), latest_wkid: None, vcs_wkid: None, latest_vcs_wkid: None, wkt: None }),
    {
        SpatialReference { wkid: Some(wkid), latest_wkid: None, vcs_wkid: None, latest_vcs_wkid: None, wkt: None }
    }

    /// A copy of this spatial reference.
    pub fn duplicate(&self) -> (r: SpatialReference)
        ensures
            r == *self,
    {
        let wkt = match &self.wkt {
            Some(s) => Some(s.clone()),
            None => None,
        };
        SpatialReference {
            wkid: self.wkid,
            latest_wkid: self.latest_wkid,
            vcs_wkid: self.vcs_wkid,
            latest_vcs_wkid: self.latest_vcs_wkid,
            wkt,
        }
    }
}

/// Decodes a spatial reference strictly.
pub fn decode_spatial_reference(j: &Json) -> (r: Option<SpatialReference>)
    ensures
        match r {
            Some(sr) => spatial_reference_of(j@) == Some(sr@),
            None => spatial_reference_of(j@) is None,
        },
{
    if !j.is_object() {
        return None;
    }
    let wkid = read_opt_i32(get_field(j, "wkid"));
    let latest_wkid = read_opt_i32(get_field(j, "latestWkid"));
    let vcs_wkid = read_opt_i32(get_field(j, "vcsWkid"));
    let latest_vcs_wkid = read_opt_i32(get_field(j, "latestVcsWkid"));
    let wkt = read_opt_string(get_field(j, "wkt"));
    match (wkid, latest_wkid, vcs_wkid, latest_vcs_wkid, wkt) {
        (Some(wkid), Some(latest_wkid), Some(vcs_wkid), Some(latest_vcs_wkid), Some(wkt)) => Some(
            SpatialReference { wkid, latest_wkid, vcs_wkid, latest_vcs_wkid, wkt },
        ),
        _ => None,
    }
}

/// An optional spatial reference member: absent or null is none.
pub open spec fn opt_spatial_reference(f: Member) -> Option<Option<SpatialReferenceView>> {
    match f {
        None => Some(None),
        Some(JsonView::Null) => Some(None),
        Some(j) => match spatial_reference_of(j) {
            Some(sr) => Some(Some(sr)),
            None => None,
        },
    }
}

/// A point, with optional height and measure.
#[derive(Debug, PartialEq)]
pub struct GeoPoint {
    pub x: Real,
    pub y: Real,
    pub z: Option<Real>,
    pub m: Option<Real>,
    pub spatial_reference: Option<SpatialReference>,
}

pub struct GeoPointView {
    pub x: Real,
    pub y: Real,
    pub z: Option<Real>,
    pub m: Option<Real>,
    pub spatial_reference: Option<SpatialReferenceView>,
}

impl View for GeoPoint {
    type V = GeoPointView;

    open spec fn view(&self) -> GeoPointView {
        GeoPointView {
            x: self.x,
            y: self.y,
            z: self.z,
            m: self.m,
            spatial_reference: match self.spatial_reference {
                Some(s) => Some(s@),
                None => None,
            },
        }
    }
}

/// The strict decode of a point: `x` and `y` are required numbers.
pub open spec fn point_of(j: JsonView) -> Option<GeoPointView> {
    let x = req_real(field(j, "x"@));
    let y = req_real(field(j, "y"@));
    let z = opt_real(field(j, "z"@));
    let m = opt_real(field(j, "m"@));
    let sr = opt_spatial_reference(field(j, "spatialReference"@));
    if j is Object && x is Some && y is Some && z is Some && m is Some && sr is Some {
        Some(GeoPointView { x: x->0, y: y->0, z: z->0, m: m->0, spatial_reference: sr->0 })
    } else {
        None
    }
}

/// Decodes a point strictly.
pub fn decode_point(j: &Json) -> (r: Option<GeoPoint>)
    ensures
        match r {
            Some(p) => point_of(j@) == Some(p@),
            None => point_of(j@) is None,
        },
{
    if !j.is_object() {
        return None;
    }
    let x = read_req_real(get_field(j, "x"));
    let y = read_req_real(get_field(j, "y"));
    let z = read_opt_real(get_field(j, "z"));
    let m = read_opt_real(get_field(j, "m"));
    let sr = match get_field(j, "spatialReference") {
        None => Some(None),
        Some(Json::Null) => Some(None),
        Some(s) => match decode_spatial_reference(s) {
            Some(sr) => Some(Some(sr)),
            None => None,
        },
    };
    match (x, y, z, m, sr) {
        (Some(x), Some(y), Some(z), Some(m), Some(spatial_reference)) => Some(
            GeoPoint { x, y, z, m, spatial_reference },
        ),
        _ => None,
    }
}

/// A bounding box; its four bounds are all present or the box is absent.
#[derive(Clone, Copy, PartialEq, Eq, Structural, Debug)]
pub struct Extent {
    pub xmin: Real,
    pub ymin: Real,
    pub xmax: Real,
    pub ymax: Real,
}

/// The strict decode of a bounding box: all four bounds are required numbers.
pub open spec fn bounding_box_of(j: JsonView) -> Option<Extent> {
    let xmin = req_real(field(j, "xmin"@));
    let ymin = req_real(field(j, "ymin"@));
    let xmax = req_real(field(j, "xmax"@));
    let ymax = req_real(field(j, "ymax"@));
    if xmin is Some && ymin is Some && xmax is Some && ymax is Some {
        Some(Extent { xmin: xmin->0, ymin: ymin->0, xmax: xmax->0, ymax: ymax->0 })
    } else {
        None
    }
}

/// Decodes a bounding box strictly.
pub fn decode_bounding_box(j: &Json) -> (r: Option<Extent>)
    ensures
        r == bounding_box_of(j@),
{
    let xmin = read_req_real(get_field(j, "xmin"));
    let ymin = read_req_real(get_field(j, "ymin"));
    let xmax = read_req_real(get_field(j, "xmax"));
    let ymax = read_req_real(get_field(j, "ymax"));
    match (xmin, ymin, xmax, ymax) {
        (Some(xmin), Some(ymin), Some(xmax), Some(ymax)) => Some(Extent { xmin, ymin, xmax, ymax }),
        _ => None,
    }
}

/// One coordinate pair of a geometry sequence; a coordinate that could not
/// be had is `None`.
#[derive(Clone, Copy, PartialEq, Eq, Structural, Debug)]
pub struct PointXY {
    pub x: Option<Real>,
    pub y: Option<Real>,
}

/// The placeholder for a record without a location: both coordinates absent.
pub open spec fn missing_point() -> PointXY {
    PointXY { x: None, y: None }
}

/// The coordinate pair of an optional point: its `x` and `y`, or the
/// missing-point placeholder.
pub open spec fn xy_of(p: Option<GeoPointView>) -> PointXY {
    match p {
        Some(p) => PointXY { x: Some(p.x), y: Some(p.y) },
        None => missing_point(),
    }
}

impl PointXY {
    /// The missing-point placeholder.
    pub fn missing() -> (r: PointXY)
        ensures
            r == missing_point(),
    {
        PointXY { x: None, y: None }
    }

    /// Whether this is the missing-point placeholder.
    pub fn is_missing(&self) -> (r: bool)
        ensures
            r == (*self == missing_point()),
    {
        self.x.is_none() && self.y.is_none()
    }
}

/// Extracts the coordinate pair of an optional point.
pub fn point_xy(p: &Option<GeoPoint>) -> (r: PointXY)
    ensures
        r == match *p {
            Some(p) => PointXY { x: Some(p.x), y: Some(p.y) },
            None => missing_point(),
        },
{
    match p {
        Some(p) => PointXY { x: Some(p.x), y: Some(p.y) },
        None => PointXY::missing(),
    }
}

/// The point that a coordinate list gives, stamped with `sr`: its first two
/// coordinates, or none where it has fewer than two.
pub open spec fn stamped_point(coords: Seq<Real>, sr: SpatialReference) -> Option<GeoPoint> {
    if coords.len() < 2 {
        None
    } else {
        Some(GeoPoint { x: coords[0], y: coords[1], z: None, m: None, spatial_reference: Some(sr) })
    }
}

/// Turns coordinate lists into points stamped with the spatial reference
/// `sr`, one per list, in order.
pub fn points_from_coords(coords: &Vec<Vec<Real>>, sr: &SpatialReference) -> (r: Vec<Option<GeoPoint>>)
    ensures
        r@.len() == coords@.len(),
        forall|i: int| 0 <= i < coords@.len() ==> #[trigger] r@[i] == stamped_point(coords@[i]@, *sr),
{
    let mut out: Vec<Option<GeoPoint>> = Vec::new();
    let mut i: usize = 0;
    while i < coords.len()
        invariant
            i <= coords@.len(),
            out@.len() == i,
            forall|j: int| 0 <= j < i ==> #[trigger] out@[j] == stamped_point(coords@[j]@, *sr),
        decreases coords@.len() - i,
    {
        let c = &coords[i];
        if c.len() < 2 {
            out.push(None);
        } else {
            out.push(Some(GeoPoint { x: c[0], y: c[1], z: None, m: None, spatial_reference: Some(sr.duplicate()) }));
        }
        i = i + 1;
    }
    out
}

} // verus!
