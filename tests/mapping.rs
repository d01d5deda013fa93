use arcgisgeocode::custom::{parse_custom_location_json, MapError};
use arcgisgeocode::json::{parse_json, Json, JsonNumber, Real};
use arcgisgeocode::table::{coerce, map_attributes, Cell, ColumnType, SchemaMismatch, Table};

fn bits_of(f: f64) -> Real {
    Real { bits: f.to_bits() }
}

fn table() -> Table {
    let mut t = Table::new(2);
    t.add_column("name", ColumnType::Text);
    t.add_column("count", ColumnType::Integer);
    t.add_column("ok", ColumnType::Boolean);
    t.add_column("w", ColumnType::Float);
    t
}

fn objects(text: &str) -> Vec<Json> {
    match parse_json(text) {
        Some(Json::Array(items)) => items,
        other => panic!("expected an array, got {:?}", other),
    }
}

#[test]
fn unknown_key_is_ignored() {
    let mut t = table();
    let objs = objects(r#"[{"name":"a","unknown":5,"count":1},{"zzz":"q","ok":true}]"#);
    assert_eq!(map_attributes(&mut t, &objs), Ok(()));
    assert_eq!(t.cell("name", 0), Some(&Cell::Text("a".to_string())));
    assert_eq!(t.cell("count", 0), Some(&Cell::Integer(1)));
    assert_eq!(t.cell("ok", 1), Some(&Cell::Boolean(true)));
    assert_eq!(t.cell("unknown", 0), None);
    assert_eq!(t.cell("zzz", 1), None);
    assert_eq!(t.columns.len(), 4);

    let mut u = table();
    let plain = objects(r#"[{"name":"a","count":1},{"ok":true}]"#);
    assert_eq!(map_attributes(&mut u, &plain), Ok(()));
    assert_eq!(t, u);
}

#[test]
fn text_in_integer_column_is_null() {
    let mut t = table();
    let objs = objects(r#"[{"count":"12"},{"count":7}]"#);
    assert_eq!(map_attributes(&mut t, &objs), Ok(()));
    assert_eq!(t.cell("count", 0), Some(&Cell::Null));
    assert_eq!(t.cell("count", 1), Some(&Cell::Integer(7)));
}

#[test]
fn row_count_mismatch_leaves_table_unchanged() {
    let mut t = table();
    let first = objects(r#"[{"name":"x"},{"name":"y"}]"#);
    assert_eq!(map_attributes(&mut t, &first), Ok(()));
    let before = table_copy(&t);
    let three = objects(r#"[{"name":"p"},{"name":"q"},{"name":"r"}]"#);
    assert_eq!(
        map_attributes(&mut t, &three),
        Err(SchemaMismatch { rows: 2, records: 3 })
    );
    assert_eq!(t, before);
    let one = objects(r#"[{"name":"p"}]"#);
    assert_eq!(map_attributes(&mut t, &one), Err(SchemaMismatch { rows: 2, records: 1 }));
    assert_eq!(t.cell("name", 0), Some(&Cell::Text("x".to_string())));
}

fn table_copy(t: &Table) -> Table {
    let mut c = Table::new(t.nrows);
    for col in t.columns.iter() {
        c.add_column(&col.name, col.ty);
    }
    let mut out = c;
    for (k, col) in t.columns.iter().enumerate() {
        for (i, cell) in col.cells.iter().enumerate() {
            out.columns[k].cells[i] = cell.duplicate();
        }
    }
    out
}

#[test]
fn coercion_by_column_type() {
    let b = Json::Bool(true);
    let s = Json::Str("hi".to_string());
    let n = |text: &str| parse_json(text).unwrap();
    assert_eq!(coerce(ColumnType::Boolean, &b), Cell::Boolean(true));
    assert_eq!(coerce(ColumnType::Boolean, &s), Cell::Null);
    assert_eq!(coerce(ColumnType::Integer, &n("42")), Cell::Integer(42));
    assert_eq!(coerce(ColumnType::Integer, &n("-2147483648")), Cell::Integer(i32::MIN));
    assert_eq!(coerce(ColumnType::Integer, &n("2147483648")), Cell::Null);
    assert_eq!(coerce(ColumnType::Integer, &n("4.5")), Cell::Null);
    assert_eq!(coerce(ColumnType::Integer, &n("4.0")), Cell::Null);
    assert_eq!(coerce(ColumnType::Float, &n("4.5")), Cell::Float(bits_of(4.5)));
    assert_eq!(coerce(ColumnType::Float, &n("3")), Cell::Float(bits_of(3.0)));
    assert_eq!(coerce(ColumnType::Float, &n("-3")), Cell::Float(bits_of(-3.0)));
    assert_eq!(coerce(ColumnType::Float, &s), Cell::Null);
    assert_eq!(coerce(ColumnType::Text, &s), Cell::Text("hi".to_string()));
    assert_eq!(coerce(ColumnType::Text, &Json::Null), Cell::Null);
    assert_eq!(coerce(ColumnType::Text, &n("1")), Cell::Null);
}

#[test]
fn parse_json_numbers_carry_both_forms() {
    match parse_json("[7, 1e3, -1, 18446744073709551615]") {
        Some(Json::Array(items)) => {
            assert_eq!(items[0], Json::Number(JsonNumber { int: Some(7), real: Some(bits_of(7.0)) }));
            assert_eq!(items[1], Json::Number(JsonNumber { int: None, real: Some(bits_of(1000.0)) }));
            assert_eq!(items[2], Json::Number(JsonNumber { int: Some(-1), real: Some(bits_of(-1.0)) }));
            assert_eq!(items[3], Json::Number(JsonNumber { int: None, real: Some(bits_of(18446744073709551615.0)) }));
        }
        other => panic!("expected an array, got {:?}", other),
    }
    assert_eq!(parse_json("{"), None);
}

#[test]
fn custom_locations_fill_table_and_points() {
    let mut t = table();
    let text = r#"{"spatialReference":{"wkid":3857},"locations":[
        {"attributes":{"name":"a","w":2.5,"extra":[1]},"location":{"x":1.5,"y":2.5}},
        {"attributes":{"ok":false},"location":null}]}"#;
    let out = parse_custom_location_json(text, &mut t).expect("mapped");
    assert_eq!(out.locations.len(), 2);
    assert_eq!(out.locations[0].x, Some(bits_of(1.5)));
    assert_eq!(out.locations[0].y, Some(bits_of(2.5)));
    assert_eq!(out.locations[1].x, None);
    assert_eq!(out.locations[1].y, None);
    assert_eq!(out.spatial_reference.map(|s| s.wkid), Some(Some(3857)));
    assert_eq!(t.cell("w", 0), Some(&Cell::Float(bits_of(2.5))));
    assert_eq!(t.cell("ok", 1), Some(&Cell::Boolean(false)));
    assert_eq!(t.cell("name", 1), Some(&Cell::Null));
}

#[test]
fn custom_locations_reject_bad_records() {
    let mut t = table();
    let no_attributes = r#"{"locations":[{"attributes":{"name":"a"}},{"location":{"x":1,"y":2}}]}"#;
    assert_eq!(parse_custom_location_json(no_attributes, &mut t), Err(MapError::Unparsable));
    let half_point = r#"{"locations":[{"attributes":{"name":"a"}},{"attributes":{},"location":{"x":1}}]}"#;
    assert_eq!(parse_custom_location_json(half_point, &mut t), Err(MapError::Unparsable));
    let bad_coordinate = r#"{"locations":[{"attributes":{}},{"attributes":{},"location":{"x":"a","y":2}}]}"#;
    assert_eq!(parse_custom_location_json(bad_coordinate, &mut t), Err(MapError::Unparsable));
    assert_eq!(t, table());
}

#[test]
fn custom_locations_report_error_envelope() {
    let mut t = table();
    let text = r#"{"error":{"code":498,"message":"Invalid token","details":["expired"]}}"#;
    let err = parse_custom_location_json(text, &mut t).unwrap_err();
    assert_eq!(err.message(), "Error occured parsing response:\n498: Invalid token expired");
    match err {
        MapError::ApiError(e) => assert_eq!(e.code, 498),
        other => panic!("expected an API error, got {:?}", other),
    }
    assert_eq!(t, table());
}

#[test]
fn custom_locations_errors() {
    let mut t = table();
    assert_eq!(parse_custom_location_json("{", &mut t), Err(MapError::Unparsable));
    assert_eq!(parse_custom_location_json(r#"{"records":[]}"#, &mut t), Err(MapError::Unparsable));
    let one = r#"{"locations":[{"attributes":{"name":"a"}}]}"#;
    assert_eq!(
        parse_custom_location_json(one, &mut t),
        Err(MapError::SchemaMismatch(SchemaMismatch { rows: 2, records: 1 }))
    );
    assert_eq!(t.cell("name", 0), Some(&Cell::Null));
}

#[test]
fn schema_lists_columns_in_order() {
    let t = table();
    let s = t.schema();
    assert_eq!(s.len(), 4);
    assert_eq!(s[0], ("name".to_string(), ColumnType::Text));
    assert_eq!(s[3], ("w".to_string(), ColumnType::Float));
}

#[test]
fn map_error_messages() {
    assert_eq!(
        MapError::SchemaMismatch(SchemaMismatch { rows: 2, records: 13 }).message(),
        "Error occured mapping the response: 13 records for a table of 2 rows"
    );
    assert_eq!(MapError::Unparsable.message(), "Error occured parsing : unexpected response shape");
}
