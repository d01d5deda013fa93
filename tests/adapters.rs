use arcgisgeocode::batch::parse_location_json;
use arcgisgeocode::candidates::parse_candidate_json;
use arcgisgeocode::envelope::Decoded;
use arcgisgeocode::geometry::{Extent, PointXY};
use arcgisgeocode::json::Real;
use arcgisgeocode::reverse::{parse_rev_geocode_resp, ReverseGeocodeParams};
use arcgisgeocode::suggest::parse_suggestions;
use arcgisgeocode::table::Cell;

fn bits_of(f: f64) -> Real {
    Real { bits: f.to_bits() }
}

fn xy(x: f64, y: f64) -> PointXY {
    PointXY { x: Some(bits_of(x)), y: Some(bits_of(y)) }
}

const ONE_CANDIDATE: &str = r#"{"candidates":[{"address":"100 Main St","location":{"x":1.0,"y":2.0},"score":97.5,"attributes":{"Score":97,"City":"Springfield"},"extent":{"xmin":0,"ymin":1,"xmax":2,"ymax":3}}],"spatialReference":{"wkid":4326}}"#;

#[test]
fn candidate_scenario_one_row() {
    let out = match parse_candidate_json(ONE_CANDIDATE) {
        Decoded::Parsed(c) => c,
        other => panic!("expected a parsed response, got {:?}", other),
    };
    assert_eq!(out.attributes.nrows, 1);
    assert_eq!(out.attributes.cell("Score", 0), Some(&Cell::Float(bits_of(97.0))));
    assert_eq!(out.attributes.cell("City", 0), Some(&Cell::Text("Springfield".to_string())));
    assert_eq!(out.attributes.cell("Status", 0), Some(&Cell::Null));
    assert_eq!(out.attributes.cell("ResultID", 0), Some(&Cell::Null));
    assert_eq!(out.attributes.cell("Rank", 0), Some(&Cell::Null));
    assert_eq!(out.locations, vec![xy(1.0, 2.0)]);
    assert_eq!(
        out.extents,
        vec![Extent { xmin: bits_of(0.0), ymin: bits_of(1.0), xmax: bits_of(2.0), ymax: bits_of(3.0) }]
    );
    assert_eq!(out.spatial_reference.wkid, Some(4326));
    assert_eq!(out.spatial_reference.latest_wkid, None);
}

#[test]
fn candidate_lengths_match_candidate_count() {
    let text = r#"{"spatialReference":{"wkid":4326,"latestWkid":4326},"candidates":[
        {"address":"a","location":{"x":1,"y":2},"score":90,"attributes":{"Match_addr":"a","Status":""},"extent":{"xmin":0,"ymin":0,"xmax":1,"ymax":1}},
        {"location":{"x":3,"y":4},"score":80,"attributes":{},"extent":{"xmin":1,"ymin":1,"xmax":2,"ymax":2}},
        {"address":null,"location":{"x":5,"y":6,"z":7},"score":70,"attributes":{"ResultID":3},"extent":{"xmin":2,"ymin":2,"xmax":3,"ymax":3}}]}"#;
    let out = match parse_candidate_json(text) {
        Decoded::Parsed(c) => c,
        other => panic!("expected a parsed response, got {:?}", other),
    };
    assert_eq!(out.attributes.nrows, 3);
    assert_eq!(out.locations.len(), 3);
    assert_eq!(out.extents.len(), 3);
    for col in out.attributes.columns.iter() {
        assert_eq!(col.cells.len(), 3);
    }
    assert_eq!(out.locations, vec![xy(1.0, 2.0), xy(3.0, 4.0), xy(5.0, 6.0)]);
    assert_eq!(out.attributes.cell("Match_addr", 0), Some(&Cell::Text("a".to_string())));
    // empty text is no value for a candidate
    assert_eq!(out.attributes.cell("Status", 0), Some(&Cell::Null));
    assert_eq!(out.attributes.cell("ResultID", 2), Some(&Cell::Integer(3)));
    assert_eq!(out.spatial_reference.latest_wkid, Some(4326));
}

#[test]
fn candidate_empty_response_is_valid_and_empty() {
    let text = r#"{"spatialReference":{"wkid":102100},"candidates":[]}"#;
    match parse_candidate_json(text) {
        Decoded::Parsed(c) => {
            assert_eq!(c.attributes.nrows, 0);
            assert!(c.locations.is_empty());
            assert!(c.extents.is_empty());
            assert_eq!(c.attributes.columns.len(), 59);
            assert_eq!(c.spatial_reference.wkid, Some(102100));
        }
        other => panic!("expected a parsed empty response, got {:?}", other),
    }
}

#[test]
fn candidate_missing_extent_fails_decode() {
    let text = r#"{"spatialReference":{"wkid":4326},"candidates":[{"location":{"x":1,"y":2},"score":1,"attributes":{}}]}"#;
    let out = parse_candidate_json(text);
    assert_eq!(out, Decoded::Unparsable);
    assert!(!out.is_parsed());
}

#[test]
fn error_envelope_scenario() {
    let text = r#"{"error":{"code":400,"message":"Invalid request"}}"#;
    let out = parse_candidate_json(text);
    let msg = out.diagnostic().expect("a diagnostic");
    assert!(msg.contains("400"));
    assert!(msg.contains("Invalid request"));
    match out {
        Decoded::ApiError(e) => {
            assert_eq!(e.code, 400);
            assert_eq!(e.message, Some("Invalid request".to_string()));
            assert_eq!(e.details, None);
        }
        other => panic!("expected an API error, got {:?}", other),
    }
    let batch = parse_location_json(text);
    let msg = batch.diagnostic().expect("a diagnostic");
    assert!(msg.contains("400") && msg.contains("Invalid request"));
}

#[test]
fn error_envelope_message_is_exact() {
    let text = r#"{"error":{"code":-498,"extendedCode":7,"message":"Invalid token","details":["a","b c"]}}"#;
    let out = parse_location_json(text);
    assert_eq!(
        out.diagnostic(),
        Some("Error occured parsing response:\n-498: Invalid token a b c".to_string())
    );
    match out {
        Decoded::ApiError(e) => assert_eq!(e.extended_code, Some(7)),
        other => panic!("expected an API error, got {:?}", other),
    }
}

#[test]
fn error_envelope_with_bad_details_is_unparsable() {
    let text = r#"{"error":{"code":500,"details":[1]}}"#;
    assert_eq!(parse_location_json(text), Decoded::Unparsable);
}

#[test]
fn text_that_is_not_json_is_unparsable() {
    let out = parse_candidate_json("not json {");
    assert_eq!(out, Decoded::Unparsable);
    assert_eq!(
        out.diagnostic(),
        Some("Error occured parsing : unexpected response shape".to_string())
    );
}

#[test]
fn batch_unmatched_address_gets_missing_point() {
    let text = r#"{"spatialReference":{"wkid":4326},"locations":[
        {"address":"1 A St","location":{"x":10.5,"y":-3.25},"score":100,"attributes":{"ResultID":1,"Status":"M"}},
        {"address":"","score":0,"attributes":{"ResultID":2,"Status":"U"}},
        {"location":null,"score":0,"attributes":{"ResultID":3}}]}"#;
    let out = match parse_location_json(text) {
        Decoded::Parsed(g) => g,
        other => panic!("expected a parsed response, got {:?}", other),
    };
    assert_eq!(out.attributes.nrows, 3);
    assert_eq!(out.locations.len(), 3);
    assert_eq!(out.locations[0], xy(10.5, -3.25));
    assert!(out.locations[1].is_missing());
    assert_eq!(out.locations[2], PointXY::missing());
    assert_eq!(out.attributes.cell("ResultID", 1), Some(&Cell::Integer(2)));
    assert_eq!(out.attributes.cell("Status", 1), Some(&Cell::Text("U".to_string())));
    assert_eq!(out.attributes.cell("ResultID", 2), Some(&Cell::Integer(3)));
}

#[test]
fn batch_bad_location_fails_decode() {
    let text = r#"{"spatialReference":{"wkid":4326},"locations":[{"location":{"x":"a","y":1},"score":0,"attributes":{}}]}"#;
    assert_eq!(parse_location_json(text), Decoded::Unparsable);
}

#[test]
fn reverse_missing_location_is_unparsable() {
    let text = r#"{"address":{"Match_addr":"92373, Redlands, California","City":"Redlands"}}"#;
    let out = parse_rev_geocode_resp(&vec![text.to_string()]);
    assert_eq!(out.len(), 1);
    assert_eq!(out[0], Decoded::Unparsable);
    assert_eq!(
        out[0].diagnostic(),
        Some("Error occured parsing : unexpected response shape".to_string())
    );
}

#[test]
fn reverse_fields_default_to_empty_text() {
    let ok = r#"{"address":{"Match_addr":"92373, Redlands, California","City":"Redlands","Postal":92373},"location":{"x":-117.205525,"y":34.038232,"spatialReference":{"wkid":4326,"latestWkid":4326}}}"#;
    let err = r#"{"error":{"code":400,"message":"Cannot perform query"}}"#;
    let out = parse_rev_geocode_resp(&vec![ok.to_string(), err.to_string(), "[]".to_string()]);
    assert_eq!(out.len(), 3);
    match &out[0] {
        Decoded::Parsed(r) => {
            assert_eq!(r.attributes.nrows, 1);
            assert_eq!(r.attributes.columns.len(), 22);
            assert_eq!(r.location, xy(-117.205525, 34.038232));
            assert_eq!(r.attributes.cell("City", 0), Some(&Cell::Text("Redlands".to_string())));
            assert_eq!(r.attributes.cell("Region", 0), Some(&Cell::Text(String::new())));
            assert_eq!(r.attributes.cell("Postal", 0), Some(&Cell::Text(String::new())));
        }
        other => panic!("expected a parsed response, got {:?}", other),
    }
    assert!(matches!(out[1], Decoded::ApiError(_)));
    assert_eq!(out[2], Decoded::Unparsable);
}

#[test]
fn reverse_params_default() {
    let p = ReverseGeocodeParams::default();
    assert_eq!(p.out_sr.wkid, Some(4326));
    assert_eq!(p.location.x, bits_of(0.0));
    assert_eq!(p.location.y, bits_of(0.0));
    assert_eq!(p.location.spatial_reference, None);
    assert_eq!(p.lang_code, None);
    assert_eq!(p.for_storage, None);
}

#[test]
fn suggestions_decode_in_order() {
    let text = r#"{"suggestions":[{"text":"Main St","magicKey":"abc","isCollection":false},{"text":"Coffee","magicKey":"def","isCollection":true}]}"#;
    let s = match parse_suggestions(text) {
        Decoded::Parsed(s) => s.suggestions,
        other => panic!("expected parsed suggestions, got {:?}", other),
    };
    assert_eq!(s.len(), 2);
    assert_eq!(s[0].text, "Main St");
    assert_eq!(s[0].magic_key, "abc");
    assert!(!s[0].is_collection);
    assert_eq!(s[1].text, "Coffee");
    assert!(s[1].is_collection);
}

#[test]
fn suggestions_of_bad_response_fail() {
    assert_eq!(parse_suggestions(r#"{"suggestions":[{"text":"x","magicKey":"y"}]}"#), Decoded::Unparsable);
    assert_eq!(parse_suggestions("oops"), Decoded::Unparsable);
    match parse_suggestions(r#"{"suggestions":[]}"#) {
        Decoded::Parsed(s) => assert!(s.suggestions.is_empty()),
        other => panic!("expected an empty parsed list, got {:?}", other),
    }
    let err = parse_suggestions(r#"{"error":{"code":400,"message":"Bad"}}"#);
    assert!(matches!(err, Decoded::ApiError(_)));
    assert!(err.diagnostic().unwrap().contains("Bad"));
}

#[test]
fn reverse_outcomes_follow_their_own_text() {
    let ok = r#"{"address":{"City":"Redlands"},"location":{"x":1,"y":2}}"#.to_string();
    let bad = r#"{"address":{"City":"Redlands"}}"#.to_string();
    let a = parse_rev_geocode_resp(&vec![ok.clone(), bad.clone(), ok.clone()]);
    let b = parse_rev_geocode_resp(&vec![ok.clone(), ok.clone(), ok.clone()]);
    assert_eq!(a[0], b[0]);
    assert_eq!(a[2], b[2]);
    assert_eq!(a[0], a[2]);
    assert_eq!(a[1], Decoded::Unparsable);
    assert!(b[1].is_parsed());
}

#[test]
fn error_code_digits_are_exact() {
    let text = r#"{"error":{"code":-2147483648}}"#;
    assert_eq!(
        parse_location_json(text).diagnostic(),
        Some("Error occured parsing response:\n-2147483648:  ".to_string())
    );
    let text = r#"{"error":{"code":0,"message":"m","details":[]}}"#;
    assert_eq!(
        parse_location_json(text).diagnostic(),
        Some("Error occured parsing response:\n0: m ".to_string())
    );
}
