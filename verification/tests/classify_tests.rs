use edge_router::classify::{classify_region, is_soap_request, LogLevel, RegionCode};

#[test]
fn all_known_regions_map() {
    assert_eq!(classify_region(Some("wnam")), RegionCode::Wnam);
    assert_eq!(classify_region(Some("enam")), RegionCode::Enam);
    assert_eq!(classify_region(Some("weur")), RegionCode::Weur);
    assert_eq!(classify_region(Some("eeur")), RegionCode::Eeur);
    assert_eq!(classify_region(Some("apac")), RegionCode::Apac);
    assert_eq!(classify_region(Some("oc")), RegionCode::Oc);
    assert_eq!(classify_region(Some("af")), RegionCode::Af);
    assert_eq!(classify_region(Some("me")), RegionCode::Me);
}

#[test]
fn region_matching_is_case_insensitive() {
    assert_eq!(classify_region(Some("WNAM")), RegionCode::Wnam);
    assert_eq!(classify_region(Some("WeUr")), RegionCode::Weur);
    assert_eq!(classify_region(Some("EEUR")), RegionCode::Eeur);
    assert_eq!(classify_region(Some("Me")), RegionCode::Me);
}

#[test]
fn unknown_region_defaults() {
    assert_eq!(classify_region(Some("mars")), RegionCode::Wnam);
    assert_eq!(classify_region(Some("")), RegionCode::Wnam);
    assert_eq!(classify_region(Some("weur ")), RegionCode::Wnam);
    assert_eq!(classify_region(None), RegionCode::Wnam);
}

#[test]
fn eu_flag_marks_exactly_the_european_regions() {
    assert!(RegionCode::Weur.is_eu());
    assert!(RegionCode::Eeur.is_eu());
    assert!(!RegionCode::Wnam.is_eu());
    assert!(!RegionCode::Enam.is_eu());
    assert!(!RegionCode::Apac.is_eu());
    assert!(!RegionCode::Oc.is_eu());
    assert!(!RegionCode::Af.is_eu());
    assert!(!RegionCode::Me.is_eu());
}

#[test]
fn soap_kind_marker() {
    assert!(is_soap_request("soap"));
    assert!(is_soap_request("SOAP"));
    assert!(is_soap_request("Soap"));
    assert!(!is_soap_request(""));
    assert!(!is_soap_request("http"));
    assert!(!is_soap_request("soapy"));
}

#[test]
fn log_level_from_header() {
    assert_eq!(LogLevel::from_header("debug"), LogLevel::Debug);
    assert_eq!(LogLevel::from_header("DEBUG"), LogLevel::Debug);
    assert_eq!(LogLevel::from_header("info"), LogLevel::Info);
    assert_eq!(LogLevel::from_header(""), LogLevel::Info);
    assert_eq!(LogLevel::from_header("verbose"), LogLevel::Info);
}

#[test]
fn should_log_debug_only_at_debug() {
    assert!(LogLevel::Debug.should_log_debug());
    assert!(!LogLevel::Info.should_log_debug());
}
