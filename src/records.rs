//! The records of a batch-geocode request: one address per row, assembled
//! from parallel columns, each optional column present for every row or
//! for none.
use vstd::prelude::*;
use crate::geometry::{GeoPoint, SpatialReference};
use crate::json::Real;

verus! {

/// One address to geocode.
#[derive(Debug, PartialEq)]
pub struct Address {
    pub objectid: i32,
    pub single_line: Option<String>,
    pub address: Option<String>,
    pub address2: Option<String>,
    pub address3: Option<String>,
    pub neighborhood: Option<String>,
    pub city: Option<String>,
    pub subregion: Option<String>,
    pub region: Option<String>,
    pub postal: Option<String>,
    pub postal_ext: Option<String>,
    pub country_code: Option<String>,
    pub location: Option<GeoPoint>,
}

/// One record of a batch-geocode request.
#[derive(Debug, PartialEq)]
pub struct Record {
    pub attributes: Address,
}

/// The records of a batch-geocode request.
#[derive(Debug, PartialEq)]
pub struct Records {
    pub records: Vec<Record>,
}

/// Row `i` of an optional text column.
pub open spec fn text_at(col: Option<Vec<String>>, i: int) -> Option<String> {
    match col {
        Some(v) => Some(v@[i]),
        None => None,
    }
}

/// An optional column has at least `n` rows where it is present.
pub open spec fn covers(col: Option<Vec<String>>, n: nat) -> bool {
    match col {
        Some(v) => v@.len() >= n,
        None => true,
    }
}

/// Row `i` of the optional location column: the point of its first two
/// coordinates, stamped with `sr`.
pub open spec fn location_at(col: Option<Vec<Vec<Real>>>, sr: Option<SpatialReference>, i: int) -> Option<GeoPoint> {
    match col {
        Some(v) => Some(GeoPoint { x: v@[i]@[0], y: v@[i]@[1], z: None, m: None, spatial_reference: sr }),
        None => None,
    }
}

fn text_column_at(col: &Option<Vec<String>>, i: usize) -> (r: Option<String>)
    requires
        covers(*col, (i + 1) as nat),
    ensures
        r == text_at(*col, i as int),
{
    match col {
        Some(v) => Some(v[i].clone()),
        None => None,
    }
}

/// Assembles the first `n` rows of the columns into request records, in
/// order. Where locations are given, each row has at least two coordinates
/// and every point is stamped with the spatial reference `sr`, which must
/// then be given.
pub fn create_records(
    object_id: &Vec<i32>,
    single_line: &Option<Vec<String>>,
    address: &Option<Vec<String>>,
    address2: &Option<Vec<String>>,
    address3: &Option<Vec<String>>,
    neighborhood: &Option<Vec<String>>,
    city: &Option<Vec<String>>,
    subregion: &Option<Vec<String>>,
    region: &Option<Vec<String>>,
    postal: &Option<Vec<String>>,
    postal_ext: &Option<Vec<String>>,
    country_code: &Option<Vec<String>>,
    location: &Option<Vec<Vec<Real>>>,
    sr: &Option<SpatialReference>,
    n: usize,
) -> (r: Records)
    requires
        object_id@.len() >= n,
        covers(*single_line, n as nat),
        covers(*address, n as nat),
        covers(*address2, n as nat),
        covers(*address3, n as nat),
        covers(*neighborhood, n as nat),
        covers(*city, n as nat),
        covers(*subregion, n as nat),
        covers(*region, n as nat),
        covers(*postal, n as nat),
        covers(*postal_ext, n as nat),
        covers(*country_code, n as nat),
        match *location {
            Some(v) => sr is Some && v@.len() >= n && forall|i: int| 0 <= i < n ==> (#[trigger] v@[i])@.len() >= 2,
            None => true,
        },
    ensures
        r.records@.len() == n,
        forall|i: int| 0 <= i < n ==> (#[trigger] r.records@[i]).attributes == (Address {
            objectid: object_id@[i],
            single_line: text_at(*single_line, i),
            address: text_at(*address, i),
            address2: text_at(*address2, i),
            address3: text_at(*address3, i),
            neighborhood: text_at(*neighborhood, i),
            city: text_at(*city, i),
            subregion: text_at(*subregion, i),
            region: text_at(*region, i),
            postal: text_at(*postal, i),
            postal_ext: text_at(*postal_ext, i),
            country_code: text_at(*country_code, i),
            location: location_at(*location, *sr, i),
        }),
{
    let mut records: Vec<Record> = Vec::new();
    let mut i: usize = 0;
    while i < n
        invariant
            i <= n,
            records@.len() == i,
            object_id@.len() >= n,
            covers(*single_line, n as nat),
            covers(*address, n as nat),
            covers(*address2, n as nat),
            covers(*address3, n as nat),
            covers(*neighborhood, n as nat),
            covers(*city, n as nat),
            covers(*subregion, n as nat),
            covers(*region, n as nat),
            covers(*postal, n as nat),
            covers(*postal_ext, n as nat),
            covers(*country_code, n as nat),
            match *location {
                Some(v) => sr is Some && v@.len() >= n && forall|i: int| 0 <= i < n ==> (#[trigger] v@[i])@.len() >= 2,
                None => true,
            },
            forall|k: int| 0 <= k < i ==> (#[trigger] records@[k]).attributes == (Address {
                objectid: object_id@[k],
                single_line: text_at(*single_line, k),
                address: text_at(*address, k),
                address2: text_at(*address2, k),
                address3: text_at(*address3, k),
                neighborhood: text_at(*neighborhood, k),
                city: text_at(*city, k),
                subregion: text_at(*subregion, k),
                region: text_at(*region, k),
                postal: text_at(*postal, k),
                postal_ext: text_at(*postal_ext, k),
                country_code: text_at(*country_code, k),
                location: location_at(*location, *sr, k),
            }),
        decreases n - i,
    {
        let loc = match location {
            Some(v) => {
                let c = &v[i];
                let stamp = match sr {
                    Some(s) => Some(s.duplicate()),
                    None => None,
                };
                Some(GeoPoint { x: c[0], y: c[1], z: None, m: None, spatial_reference: stamp })
            },
            None => None,
        };
        let attributes = Address {
            objectid: object_id[i],
            single_line: text_column_at(single_line, i),
            address: text_column_at(address, i),
            address2: text_column_at(address2, i),
            address3: text_column_at(address3, i),
            neighborhood: text_column_at(neighborhood, i),
            city: text_column_at(city, i),
            subregion: text_column_at(subregion, i),
            region: text_column_at(region, i),
            postal: text_column_at(postal, i),
            postal_ext: text_column_at(postal_ext, i),
            country_code: text_column_at(country_code, i),
            location: loc,
        };
        records.push(Record { attributes });
        i = i + 1;
    }
    Records { records }
}

} // verus!
