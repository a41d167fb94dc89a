use geo_proximity::crs::CrsDef;

#[test]
fn known_code_gives_its_proj_string() {
    let def = CrsDef::from_code(27700).expect("British National Grid is in the table");
    assert_eq!(def.code, 27700);
    assert_eq!(def.proj4, crs_definitions::EPSG_27700.proj4);
    assert!(def.proj4.starts_with("+proj=tmerc"));
}

#[test]
fn geographic_code_gives_longlat() {
    let def = CrsDef::from_code(4326).expect("WGS 84 is in the table");
    assert_eq!(def.proj4, "+proj=longlat +datum=WGS84 +no_defs");
}

#[test]
fn unknown_code_gives_none() {
    assert_eq!(CrsDef::from_code(1), None);
}
