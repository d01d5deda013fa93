use arcgisgeocode::geometry::{points_from_coords, point_xy, GeoPoint, SpatialReference};
use arcgisgeocode::iso3166::{is_iso3166, is_iso3166_scalar};
use arcgisgeocode::json::Real;
use arcgisgeocode::records::create_records;

fn bits_of(f: f64) -> Real {
    Real { bits: f.to_bits() }
}

#[test]
fn country_codes_in_any_case() {
    assert!(is_iso3166_scalar("us"));
    assert!(is_iso3166_scalar("USA"));
    assert!(is_iso3166_scalar("deu"));
    assert!(is_iso3166_scalar("eur"));
    assert!(is_iso3166_scalar("Rks"));
    assert!(!is_iso3166_scalar("xx"));
    assert!(!is_iso3166_scalar("usaa"));
    assert!(!is_iso3166_scalar(""));
    let r = is_iso3166(&vec![Some("gb".to_string()), None, Some("zz".to_string())]);
    assert_eq!(r, vec![Some(true), None, Some(false)]);
}

#[test]
fn points_are_stamped_with_reference() {
    let sr = SpatialReference::from_wkid(4326);
    let coords = vec![vec![bits_of(1.0), bits_of(2.0)], vec![bits_of(3.0)], vec![bits_of(4.0), bits_of(5.0), bits_of(6.0)]];
    let pts = points_from_coords(&coords, &sr);
    assert_eq!(pts.len(), 3);
    let p0 = pts[0].as_ref().unwrap();
    assert_eq!((p0.x, p0.y), (bits_of(1.0), bits_of(2.0)));
    assert_eq!(p0.spatial_reference.as_ref().unwrap().wkid, Some(4326));
    assert!(pts[1].is_none());
    let p2 = pts[2].as_ref().unwrap();
    assert_eq!((p2.x, p2.y, p2.z), (bits_of(4.0), bits_of(5.0), None));
    assert!(point_xy(&pts[1]).is_missing());
    assert_eq!(point_xy(&pts[2]).x, Some(bits_of(4.0)));
}

#[test]
fn point_xy_keeps_coordinates() {
    let p = Some(GeoPoint { x: bits_of(-1.5), y: bits_of(0.25), z: Some(bits_of(9.0)), m: None, spatial_reference: None });
    let xy = point_xy(&p);
    assert_eq!(xy.x, Some(bits_of(-1.5)));
    assert_eq!(xy.y, Some(bits_of(0.25)));
    assert!(!xy.is_missing());
}

#[test]
fn records_from_columns() {
    let ids = vec![10, 20];
    let city = Some(vec!["Redlands".to_string(), "Riverside".to_string()]);
    let single = Some(vec!["380 New York St".to_string(), "1 Main".to_string()]);
    let loc = Some(vec![vec![bits_of(1.0), bits_of(2.0)], vec![bits_of(3.0), bits_of(4.0)]]);
    let sr = Some(SpatialReference::from_wkid(4326));
    let r = create_records(
        &ids, &single, &None, &None, &None, &None, &city, &None, &None, &None, &None, &None, &loc, &sr, 2,
    );
    assert_eq!(r.records.len(), 2);
    let a = &r.records[1].attributes;
    assert_eq!(a.objectid, 20);
    assert_eq!(a.city, Some("Riverside".to_string()));
    assert_eq!(a.single_line, Some("1 Main".to_string()));
    assert_eq!(a.address, None);
    let p = a.location.as_ref().unwrap();
    assert_eq!((p.x, p.y), (bits_of(3.0), bits_of(4.0)));
    assert_eq!(p.spatial_reference.as_ref().unwrap().wkid, Some(4326));

    let none = create_records(
        &ids, &None, &None, &None, &None, &None, &None, &None, &None, &None, &None, &None, &None, &None, 1,
    );
    assert_eq!(none.records.len(), 1);
    assert_eq!(none.records[0].attributes.objectid, 10);
    assert!(none.records[0].attributes.location.is_none());
}
