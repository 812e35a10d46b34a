use divviup_api::dp_strategies::{Prio3Histogram, Prio3SumVec, PureDpBudget, PureDpDiscreteLaplace};
use divviup_api::{
    AggregatorVdaf, BucketLength, CountVec, DpBudget, DpStrategy, DpStrategyKind, Histogram,
    HistogramType, Protocol, Sum, SumVec, Vdaf, VdafName,
};
use prio::vdaf::prio3::optimal_chunk_length;

fn protocol() -> Protocol {
    Protocol { name: "DAP-09".into() }
}

#[test]
fn missing_chunk_lengths_are_chosen() {
    let mut histogram = Vdaf::Histogram(Histogram::Opaque(BucketLength {
        length: 5,
        chunk_length: None,
        dp_strategy: DpStrategy::default(),
    }));
    histogram.populate_chunk_length(&protocol());
    match &histogram {
        Vdaf::Histogram(Histogram::Opaque(o)) => {
            assert_eq!(o.chunk_length, Some(optimal_chunk_length(5) as u64))
        }
        other => panic!("unexpected {other:?}"),
    }

    let mut sum_vec = Vdaf::SumVec(SumVec {
        bits: Some(8),
        length: Some(10),
        chunk_length: None,
        dp_strategy: DpStrategy::default(),
    });
    sum_vec.populate_chunk_length(&protocol());
    match &sum_vec {
        Vdaf::SumVec(sv) => assert_eq!(sv.chunk_length, Some(optimal_chunk_length(80) as u64)),
        other => panic!("unexpected {other:?}"),
    }

    let mut count_vec = Vdaf::CountVec(CountVec { length: Some(5), chunk_length: None });
    count_vec.populate_chunk_length(&protocol());
    assert!(matches!(
        count_vec,
        Vdaf::CountVec(CountVec { length: Some(5), chunk_length: Some(c) }) if c == optimal_chunk_length(5) as u64
    ));
}

#[test]
fn set_chunk_lengths_stay() {
    let mut count_vec = Vdaf::CountVec(CountVec { length: Some(5), chunk_length: Some(2) });
    count_vec.populate_chunk_length(&protocol());
    assert!(matches!(count_vec, Vdaf::CountVec(CountVec { chunk_length: Some(2), .. })));
    let mut sum = Vdaf::Sum(Sum { bits: Some(8) });
    sum.populate_chunk_length(&protocol());
    assert!(matches!(sum, Vdaf::Sum(Sum { bits: Some(8) })));
}

#[test]
fn vdafs_are_described_to_aggregators() {
    let histogram = Vdaf::Histogram(Histogram::Opaque(BucketLength {
        length: 5,
        chunk_length: Some(2),
        dp_strategy: DpStrategy {
            dp_strategy: DpStrategyKind::PureDpDiscreteLaplace,
            budget: DpBudget { epsilon: Some(vec![vec![1], vec![10]]) },
        },
    }));
    assert_eq!(histogram.name().as_ref(), "Prio3Histogram");
    match histogram.representation_for_protocol(&protocol()).unwrap() {
        AggregatorVdaf::Prio3Histogram(HistogramType::Opaque {
            length: 5,
            chunk_length: Some(2),
            dp_strategy: Prio3Histogram::PureDpDiscreteLaplace(l),
        }) => assert_eq!(l.budget.epsilon, [vec![1], vec![10]]),
        other => panic!("unexpected {other:?}"),
    }
    assert!(Vdaf::Sum(Sum { bits: None }).representation_for_protocol(&protocol()).is_err());
    assert!(Vdaf::Unrecognized.representation_for_protocol(&protocol()).is_err());
    assert!(matches!(Vdaf::CountVec(CountVec { length: Some(3), chunk_length: None }).name(), VdafName::Prio3Count));
}

#[test]
fn aggregator_descriptions_read_back() {
    let described = AggregatorVdaf::Prio3SumVec {
        bits: 8,
        length: 10,
        chunk_length: Some(12),
        dp_strategy: Prio3SumVec::PureDpDiscreteLaplace(PureDpDiscreteLaplace {
            budget: PureDpBudget { epsilon: [vec![1], vec![2]] },
        }),
    };
    let vdaf = Vdaf::from(described.duplicate());
    match &vdaf {
        Vdaf::SumVec(sv) => {
            assert_eq!(sv.bits, Some(8));
            assert_eq!(sv.length, Some(10));
            assert_eq!(sv.chunk_length, Some(12));
            assert_eq!(sv.dp_strategy.dp_strategy, DpStrategyKind::PureDpDiscreteLaplace);
            assert_eq!(sv.dp_strategy.budget.epsilon, Some(vec![vec![1], vec![2]]));
        }
        other => panic!("unexpected {other:?}"),
    }
    let again = vdaf.representation_for_protocol(&protocol()).unwrap();
    assert!(again.same_as(&described));
    let buckets = Vdaf::from(AggregatorVdaf::Prio3Histogram(HistogramType::Buckets {
        buckets: vec![1, 10, 100],
        chunk_length: Some(2),
        dp_strategy: Prio3Histogram::NoDifferentialPrivacy,
    }));
    assert!(buckets.validate().is_ok());
    assert!(matches!(Vdaf::from(AggregatorVdaf::Prio3Count), Vdaf::Count));
}

#[test]
fn dp_strategy_rules() {
    let missing = DpStrategy { dp_strategy: DpStrategyKind::PureDpDiscreteLaplace, budget: DpBudget { epsilon: None } };
    assert_eq!(divviup_api::vdaf::validate_dp_strategy(&missing), Err("missing_epsilon"));
    let extra = DpStrategy { dp_strategy: DpStrategyKind::NoDifferentialPrivacy, budget: DpBudget { epsilon: Some(vec![vec![1], vec![1]]) } };
    assert_eq!(divviup_api::vdaf::validate_dp_strategy(&extra), Err("extra_epsilon"));
    let short = DpStrategy { dp_strategy: DpStrategyKind::PureDpDiscreteLaplace, budget: DpBudget { epsilon: Some(vec![vec![1]]) } };
    assert_eq!(short.validate().errors.len(), 1);
    assert_eq!(short.validate().errors[0].path, vec!["budget", "epsilon"]);
}

#[test]
fn described_vdafs_come_back() {
    let categorical = Vdaf::Histogram(Histogram::Categorical(divviup_api::CategoricalBuckets {
        buckets: Some(vec!["a".into(), "b".into(), "c".into()]),
        chunk_length: Some(2),
        dp_strategy: DpStrategy::default(),
    }));
    let back = Vdaf::from(categorical.representation_for_protocol(&protocol()).unwrap());
    match back {
        Vdaf::Histogram(Histogram::Opaque(o)) => {
            assert_eq!(o.length, 3);
            assert_eq!(o.chunk_length, Some(2));
            assert_eq!(o.dp_strategy.dp_strategy, DpStrategyKind::NoDifferentialPrivacy);
        }
        other => panic!("unexpected {other:?}"),
    }
    let sum = Vdaf::Sum(Sum { bits: Some(12) });
    match Vdaf::from(sum.representation_for_protocol(&protocol()).unwrap()) {
        Vdaf::Sum(Sum { bits }) => assert_eq!(bits, Some(12)),
        other => panic!("unexpected {other:?}"),
    }
}
