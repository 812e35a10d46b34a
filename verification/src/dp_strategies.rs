use crate::vecs::{copy_u32s, u32s_eq};
use vstd::prelude::*;

verus! {

/// The contents of a vector of integer vectors.
pub open spec fn nested_view(v: Seq<Vec<u32>>) -> Seq<Seq<u32>> {
    v.map_values(|x: Vec<u32>| x@)
}

/// The two halves of a pure differential privacy budget's epsilon, each a
/// fraction written as its numerator's and denominator's digits.
#[derive(Debug)]
pub struct PureDpBudget {
    pub epsilon: [Vec<u32>; 2],
}

/// The epsilon of a budget, as a sequence of two sequences.
pub open spec fn budget_epsilon(b: PureDpBudget) -> Seq<Seq<u32>> {
    seq![b.epsilon[0]@, b.epsilon[1]@]
}

impl PureDpBudget {
    /// A budget holding copies of the two sequences of `epsilon`.
    pub fn from_epsilon(epsilon: &Vec<Vec<u32>>) -> (r: PureDpBudget)
        requires
            epsilon@.len() == 2,
        ensures
            budget_epsilon(r) == nested_view(epsilon@),
    {
        let a = copy_u32s(&epsilon[0]);
        let b = copy_u32s(&epsilon[1]);
        let r = PureDpBudget { epsilon: [a, b] };
        proof {
            assert(budget_epsilon(r) =~= nested_view(epsilon@));
        }
        r
    }

    /// The epsilon as a vector of two vectors.
    pub fn epsilon_vec(&self) -> (r: Vec<Vec<u32>>)
        ensures
            nested_view(r@) == budget_epsilon(*self),
            r@.len() == 2,
    {
        let mut r: Vec<Vec<u32>> = Vec::new();
        r.push(copy_u32s(&self.epsilon[0]));
        r.push(copy_u32s(&self.epsilon[1]));
        proof {
            assert(nested_view(r@) =~= budget_epsilon(*self));
        }
        r
    }
}

/// The pure differential privacy strategy with the discrete Laplace
/// mechanism.
#[derive(Debug)]
pub struct PureDpDiscreteLaplace {
    pub budget: PureDpBudget,
}

/// The differential privacy strategy of a histogram VDAF.
#[derive(Debug)]
pub enum Prio3Histogram {
    NoDifferentialPrivacy,
    PureDpDiscreteLaplace(PureDpDiscreteLaplace),
}

/// The differential privacy strategy of a sum-vector VDAF.
#[derive(Debug)]
pub enum Prio3SumVec {
    NoDifferentialPrivacy,
    PureDpDiscreteLaplace(PureDpDiscreteLaplace),
}

/// The epsilon of a histogram strategy; none without differential privacy.
pub open spec fn histogram_dp_epsilon(p: Prio3Histogram) -> Option<Seq<Seq<u32>>> {
    match p {
        Prio3Histogram::NoDifferentialPrivacy => None,
        Prio3Histogram::PureDpDiscreteLaplace(l) => Some(budget_epsilon(l.budget)),
    }
}

/// The epsilon of a sum-vector strategy; none without differential privacy.
pub open spec fn sum_vec_dp_epsilon(p: Prio3SumVec) -> Option<Seq<Seq<u32>>> {
    match p {
        Prio3SumVec::NoDifferentialPrivacy => None,
        Prio3SumVec::PureDpDiscreteLaplace(l) => Some(budget_epsilon(l.budget)),
    }
}

impl Prio3Histogram {
    /// A copy of the strategy.
    pub fn duplicate(&self) -> (r: Prio3Histogram)
        ensures
            histogram_dp_epsilon(r) == histogram_dp_epsilon(*self),
    {
        match self {
            Prio3Histogram::NoDifferentialPrivacy => Prio3Histogram::NoDifferentialPrivacy,
            Prio3Histogram::PureDpDiscreteLaplace(l) => {
                let v = l.budget.epsilon_vec();
                Prio3Histogram::PureDpDiscreteLaplace(
                    PureDpDiscreteLaplace { budget: PureDpBudget::from_epsilon(&v) },
                )
            },
        }
    }

    /// Whether two strategies are the same.
    pub fn same_as(&self, other: &Prio3Histogram) -> (r: bool)
        ensures
            r == (histogram_dp_epsilon(*self) == histogram_dp_epsilon(*other)),
    {
        match (self, other) {
            (Prio3Histogram::NoDifferentialPrivacy, Prio3Histogram::NoDifferentialPrivacy) => true,
            (Prio3Histogram::PureDpDiscreteLaplace(a), Prio3Histogram::PureDpDiscreteLaplace(b)) => {
                let r = u32s_eq(&a.budget.epsilon[0], &b.budget.epsilon[0]) && u32s_eq(
                    &a.budget.epsilon[1],
                    &b.budget.epsilon[1],
                );
                proof {
                    if budget_epsilon(a.budget) == budget_epsilon(b.budget) {
                        assert(budget_epsilon(a.budget)[0] == budget_epsilon(b.budget)[0]);
                        assert(budget_epsilon(a.budget)[1] == budget_epsilon(b.budget)[1]);
                    }
                    if r {
                        assert(budget_epsilon(a.budget) =~= budget_epsilon(b.budget));
                    }
                }
                r
            },
            _ => false,
        }
    }
}

impl Prio3SumVec {
    /// A copy of the strategy.
    pub fn duplicate(&self) -> (r: Prio3SumVec)
        ensures
            sum_vec_dp_epsilon(r) == sum_vec_dp_epsilon(*self),
    {
        match self {
            Prio3SumVec::NoDifferentialPrivacy => Prio3SumVec::NoDifferentialPrivacy,
            Prio3SumVec::PureDpDiscreteLaplace(l) => {
                let v = l.budget.epsilon_vec();
                Prio3SumVec::PureDpDiscreteLaplace(
                    PureDpDiscreteLaplace { budget: PureDpBudget::from_epsilon(&v) },
                )
            },
        }
    }

    /// Whether two strategies are the same.
    pub fn same_as(&self, other: &Prio3SumVec) -> (r: bool)
        ensures
            r == (sum_vec_dp_epsilon(*self) == sum_vec_dp_epsilon(*other)),
    {
        match (self, other) {
            (Prio3SumVec::NoDifferentialPrivacy, Prio3SumVec::NoDifferentialPrivacy) => true,
            (Prio3SumVec::PureDpDiscreteLaplace(a), Prio3SumVec::PureDpDiscreteLaplace(b)) => {
                let r = u32s_eq(&a.budget.epsilon[0], &b.budget.epsilon[0]) && u32s_eq(
                    &a.budget.epsilon[1],
                    &b.budget.epsilon[1],
                );
                proof {
                    if budget_epsilon(a.budget) == budget_epsilon(b.budget) {
                        assert(budget_epsilon(a.budget)[0] == budget_epsilon(b.budget)[0]);
                        assert(budget_epsilon(a.budget)[1] == budget_epsilon(b.budget)[1]);
                    }
                    if r {
                        assert(budget_epsilon(a.budget) =~= budget_epsilon(b.budget));
                    }
                }
                r
            },
            _ => false,
        }
    }
}

} // verus!
