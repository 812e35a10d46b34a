use divviup_api::{CategoricalBuckets, ContinuousBuckets, DpStrategy, ValidationErrors};

fn assert_errors(result: Result<(), ValidationErrors>, field: &str, codes: &[&str]) {
    let errors = result.unwrap_err();
    assert_eq!(errors.codes_for(field), codes.to_vec());
}

#[test]
fn validate_continuous_histogram() {
    assert!(ContinuousBuckets {
        buckets: Some(vec![0, 1, 2]),
        chunk_length: None,
        dp_strategy: DpStrategy::default(),
    }
    .validate()
    .is_ok());

    assert_errors(
        ContinuousBuckets {
            buckets: Some(vec![0, 2, 1]),
            chunk_length: None,
            dp_strategy: DpStrategy::default(),
        }
        .validate(),
        "buckets",
        &["sorted"],
    );

    assert_errors(
        ContinuousBuckets {
            buckets: Some(vec![0, 0, 2]),
            chunk_length: None,
            dp_strategy: DpStrategy::default(),
        }
        .validate(),
        "buckets",
        &["unique"],
    );
}

#[test]
fn validate_categorical_histogram() {
    assert!(CategoricalBuckets {
        buckets: Some(vec!["a".into(), "b".into()]),
        chunk_length: None,
        dp_strategy: DpStrategy::default(),
    }
    .validate()
    .is_ok());

    assert_errors(
        CategoricalBuckets {
            buckets: Some(vec!["a".into(), "a".into()]),
            chunk_length: None,
            dp_strategy: DpStrategy::default(),
        }
        .validate(),
        "buckets",
        &["unique"],
    );
}
