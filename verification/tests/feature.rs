use divviup_api::{Feature, Features};

fn parse_features(json: &str) -> Features {
    let names: Vec<String> = serde_json::from_str(json).unwrap();
    Features::from_names(&names)
}

#[test]
fn features_none() {
    assert_eq!(parse_features("[]"), Features::from_iter([]));
}

#[test]
fn features() {
    assert_eq!(
        parse_features(r#"["TokenHash"]"#),
        Features::from_iter([Feature::TokenHash])
    );
    assert_eq!(
        parse_features(r#"["TokenHash", "TokenHash", "TokenHash"]"#),
        Features::from_iter([Feature::TokenHash])
    );
    assert_eq!(
        parse_features(r#"["TokenHash", "UploadMetrics"]"#),
        Features::from_iter([Feature::TokenHash, Feature::UploadMetrics])
    );
}

#[test]
fn features_unknown() {
    assert_eq!(
        parse_features(r#"["UnspecifiedUnknownFeature"]"#),
        Features::from_iter([Feature::Unknown("UnspecifiedUnknownFeature".to_string())])
    );
    assert_eq!(
        parse_features(
            r#"["UnspecifiedUnknownFeature", "UnspecifiedUnknownFeature", "UnspecifiedUnknownFeature"]"#
        ),
        Features::from_iter([Feature::Unknown("UnspecifiedUnknownFeature".to_string())])
    );
    assert_eq!(
        parse_features(r#"["UnspecifiedUnknownFeature", "AnotherUnspecifiedUnknownFeature"]"#),
        Features::from_iter([
            Feature::Unknown("UnspecifiedUnknownFeature".to_string()),
            Feature::Unknown("AnotherUnspecifiedUnknownFeature".to_string())
        ])
    );
    assert_eq!(
        parse_features(r#"["UnspecifiedUnknownFeature", "TokenHash"]"#),
        Features::from_iter([
            Feature::TokenHash,
            Feature::Unknown("UnspecifiedUnknownFeature".to_string())
        ])
    );
}

#[test]
fn feature_flags_of_a_set() {
    let features = Features::from_iter([Feature::TokenHash]);
    assert!(features.token_hash_enabled());
    assert!(!features.upload_metrics_enabled());
    assert_eq!(features.len(), 1);
    assert!(!features.is_empty());
    assert!(Features::from_iter([]).is_empty());
    let both = Features::from_iter([Feature::TokenHash, Feature::UploadMetrics]);
    let common = both.intersect(&Features::from_iter([Feature::UploadMetrics]));
    assert_eq!(common, Features::from_iter([Feature::UploadMetrics]));
    assert!(both.contains(&Feature::UploadMetrics));
}
