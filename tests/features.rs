use geo_proximity::features::{collect_features, DecodeError, DecodedRow, GeoData, Polygons, Shape};

type Row = DecodedRow<(f64, f64), Vec<(f64, f64)>, Vec<Vec<(f64, f64)>>>;

fn point_row(uuid: &str, x: f64, y: f64) -> Row {
    DecodedRow { uuid: uuid.to_string(), geometry: Ok(Shape::Point((x, y))) }
}

#[test]
fn malformed_row_is_skipped_and_batch_goes_on() {
    let rows = vec![
        point_row("a", 1.0, 2.0),
        point_row("b", 3.0, 4.0),
        DecodedRow { uuid: "bad".to_string(), geometry: Err(DecodeError::Malformed) },
        point_row("c", 5.0, 6.0),
    ];
    let features = collect_features(rows);
    assert_eq!(features.len(), 3);
    let ids: Vec<&str> = features.iter().map(|f| f.uuid.as_str()).collect();
    assert_eq!(ids, vec!["a", "b", "c"]);
    assert_eq!(features[2].shape, Shape::Point((5.0, 6.0)));
}

#[test]
fn unsupported_kind_is_skipped() {
    let rows = vec![
        DecodedRow { uuid: "line".to_string(), geometry: Err(DecodeError::Unsupported) },
        DecodedRow {
            uuid: "area".to_string(),
            geometry: Ok(Shape::Polygon(vec![(0.0, 0.0), (1.0, 0.0), (0.0, 1.0), (0.0, 0.0)])),
        },
    ];
    let features: Vec<GeoData<_, _, _>> = collect_features::<(f64, f64), _, Vec<Vec<(f64, f64)>>>(rows);
    assert_eq!(features.len(), 1);
    assert_eq!(features[0].uuid, "area");
    assert!(matches!(features[0].shape, Shape::Polygon(ref ring) if ring.len() == 4));
}

#[test]
fn each_feature_holds_exactly_its_kind() {
    let rows = vec![
        DecodedRow { uuid: "m".to_string(), geometry: Ok(Shape::MultiPolygon(vec![vec![(0.0, 0.0)]])) },
        point_row("p", 9.0, 9.0),
    ];
    let features = collect_features::<(f64, f64), Vec<(f64, f64)>, _>(rows);
    assert!(matches!(features[0].shape, Shape::MultiPolygon(_)));
    assert!(matches!(features[1].shape, Shape::Point(_)));
}

#[test]
fn empty_batch_gives_no_features() {
    let rows: Vec<Row> = Vec::new();
    assert!(collect_features(rows).is_empty());
}

#[test]
fn area_record_keeps_its_multipolygon() {
    let decoded: Result<Shape<(f64, f64), Vec<(f64, f64)>, Vec<u32>>, DecodeError> =
        Ok(Shape::MultiPolygon(vec![1, 2]));
    let rec = Polygons::from_row(
        3,
        decoded,
        "UKS1".to_string(),
        "Beach".to_string(),
        2023,
        "Y".to_string(),
        "Excellent".to_string(),
        "https://example.org/1".to_string(),
    )
    .expect("a multipolygon row gives a record");
    assert_eq!(rec.shape, vec![1, 2]);
    assert_eq!(rec.object_id, 3);
    assert_eq!(rec.bw_id, "UKS1");
    assert_eq!(rec.class_id, "null");
    assert_eq!(rec.year, 2023);
}

#[test]
fn area_row_without_multipolygon_is_skipped() {
    let point: Result<Shape<(f64, f64), Vec<(f64, f64)>, Vec<u32>>, DecodeError> = Ok(Shape::Point((0.0, 0.0)));
    assert!(Polygons::from_row(4, point, String::new(), String::new(), 0, String::new(), String::new(), String::new()).is_none());

    let bad: Result<Shape<(f64, f64), Vec<(f64, f64)>, Vec<u32>>, DecodeError> = Err(DecodeError::Malformed);
    assert!(Polygons::from_row(5, bad, String::new(), String::new(), 0, String::new(), String::new(), String::new()).is_none());
}

#[test]
fn one_malformed_area_row_among_three_gives_two_records() {
    let rows: Vec<Result<Shape<(f64, f64), Vec<(f64, f64)>, Vec<u32>>, DecodeError>> = vec![
        Ok(Shape::MultiPolygon(vec![1])),
        Err(DecodeError::Malformed),
        Ok(Shape::MultiPolygon(vec![3])),
    ];
    let records: Vec<_> = rows
        .into_iter()
        .enumerate()
        .filter_map(|(i, g)| {
            Polygons::from_row(i as i64, g, String::new(), String::new(), 0, String::new(), String::new(), String::new())
        })
        .collect();
    assert_eq!(records.len(), 2);
    assert_eq!(records[0].shape, vec![1]);
    assert_eq!(records[1].shape, vec![3]);
}
