use crate::strings::str_eq;
use vstd::prelude::*;

verus! {

/// A failed validation rule: the path of the field that failed it, from the
/// outermost field inwards, and the rule's code.
#[derive(Debug)]
pub struct ValidationError {
    pub path: Vec<&'static str>,
    pub code: &'static str,
}

/// The texts of a path.
pub open spec fn path_view(p: Seq<&'static str>) -> Seq<Seq<char>> {
    p.map_values(|s: &'static str| s@)
}

impl View for ValidationError {
    type V = (Seq<Seq<char>>, Seq<char>);

    open spec fn view(&self) -> (Seq<Seq<char>>, Seq<char>) {
        (path_view(self.path@), self.code@)
    }
}

/// An error on a top-level field.
pub open spec fn field_error(field: Seq<char>, code: Seq<char>) -> (Seq<Seq<char>>, Seq<char>) {
    (seq![field], code)
}

/// An error moved under the field `field`.
pub open spec fn nested_error(field: Seq<char>, e: (Seq<Seq<char>>, Seq<char>)) -> (
    Seq<Seq<char>>,
    Seq<char>,
) {
    (seq![field] + e.0, e.1)
}

/// The codes of the errors on the top-level field `field`, in order.
pub open spec fn codes_of(errs: Seq<(Seq<Seq<char>>, Seq<char>)>, field: Seq<char>) -> Seq<
    Seq<char>,
>
    decreases errs.len(),
{
    if errs.len() == 0 {
        Seq::empty()
    } else {
        let rest = codes_of(errs.drop_last(), field);
        if errs.last().0 == seq![field] {
            rest.push(errs.last().1)
        } else {
            rest
        }
    }
}

/// The failed rules of a validation, in the order in which they were found.
#[derive(Debug)]
pub struct ValidationErrors {
    pub errors: Vec<ValidationError>,
}

impl View for ValidationErrors {
    type V = Seq<(Seq<Seq<char>>, Seq<char>)>;

    open spec fn view(&self) -> Seq<(Seq<Seq<char>>, Seq<char>)> {
        self.errors@.map_values(|e: ValidationError| e@)
    }
}

impl ValidationErrors {
    /// No failed rule.
    pub fn new() -> (r: ValidationErrors)
        ensures
            r@ == Seq::<(Seq<Seq<char>>, Seq<char>)>::empty(),
    {
        let r = ValidationErrors { errors: Vec::new() };
        proof {
            assert(r@ =~= Seq::<(Seq<Seq<char>>, Seq<char>)>::empty());
        }
        r
    }

    /// Records that the field `field` failed the rule `code`.
    pub fn add(&mut self, field: &'static str, code: &'static str)
        ensures
            final(self)@ == old(self)@.push(field_error(field@, code@)),
    {
        let mut path: Vec<&'static str> = Vec::new();
        path.push(field);
        let e = ValidationError { path, code };
        proof {
            assert(path_view(e.path@) =~= seq![field@]);
        }
        let ghost before = self@;
        self.errors.push(e);
        proof {
            assert(self@ =~= before.push(field_error(field@, code@)));
        }
    }

    /// Records the failures of a nested value under the field `field`.
    pub fn nest(&mut self, field: &'static str, inner: ValidationErrors)
        ensures
            final(self)@ == old(self)@ + inner@.map_values(
                |e: (Seq<Seq<char>>, Seq<char>)| nested_error(field@, e),
            ),
    {
        let ghost before = self@;
        let mut i: usize = 0;
        while i < inner.errors.len()
            invariant
                i <= inner.errors@.len(),
                self@ == before + inner@.take(i as int).map_values(
                    |e: (Seq<Seq<char>>, Seq<char>)| nested_error(field@, e),
                ),
            decreases inner.errors@.len() - i,
        {
            let e = &inner.errors[i];
            let mut path: Vec<&'static str> = Vec::new();
            path.push(field);
            let mut j: usize = 0;
            while j < e.path.len()
                invariant
                    j <= e.path@.len(),
                    path@ == seq![field] + e.path@.take(j as int),
                decreases e.path@.len() - j,
            {
                path.push(e.path[j]);
                proof {
                    assert(e.path@.take(j + 1) =~= e.path@.take(j as int).push(e.path@[j as int]));
                    assert(path@ =~= seq![field] + e.path@.take(j + 1));
                }
                j = j + 1;
            }
            let ne = ValidationError { path, code: e.code };
            proof {
                assert(e.path@.take(e.path@.len() as int) =~= e.path@);
                assert(path_view(ne.path@) =~= seq![field@] + path_view(e.path@));
            }
            let ghost prev = self@;
            self.errors.push(ne);
            proof {
                assert(inner@.take(i + 1) =~= inner@.take(i as int).push(inner@[i as int]));
                assert(inner@[i as int] == e@);
                assert(self@ =~= prev.push(nested_error(field@, e@)));
                assert(self@ =~= before + inner@.take(i + 1).map_values(
                    |e: (Seq<Seq<char>>, Seq<char>)| nested_error(field@, e),
                ));
            }
            i = i + 1;
        }
        proof {
            assert(inner@.take(inner@.len() as int) =~= inner@);
        }
    }

    /// Whether no rule failed.
    pub fn is_empty(&self) -> (r: bool)
        ensures
            r == (self@.len() == 0),
    {
        self.errors.len() == 0
    }

    /// The codes of the failed rules of the top-level field `field`, in order.
    pub fn codes_for(&self, field: &str) -> (r: Vec<&'static str>)
        ensures
            r@.map_values(|c: &'static str| c@) == codes_of(self@, field@),
    {
        let mut r: Vec<&'static str> = Vec::new();
        let mut i: usize = 0;
        proof {
            assert(r@.map_values(|c: &'static str| c@) =~= Seq::<Seq<char>>::empty());
        }
        while i < self.errors.len()
            invariant
                i <= self.errors@.len(),
                r@.map_values(|c: &'static str| c@) == codes_of(self@.take(i as int), field@),
            decreases self.errors@.len() - i,
        {
            let e = &self.errors[i];
            let ghost prev = r@;
            proof {
                assert(self@.take(i + 1).drop_last() =~= self@.take(i as int));
                assert(self@.take(i + 1).last() == e@);
            }
            if e.path.len() == 1 && str_eq(e.path[0], field) {
                r.push(e.code);
                proof {
                    assert(path_view(e.path@) =~= seq![field@]);
                    assert(r@.map_values(|c: &'static str| c@) =~= prev.map_values(
                        |c: &'static str| c@,
                    ).push(e.code@));
                }
            } else {
                proof {
                    if e@.0 == seq![field@] {
                        assert(path_view(e.path@).len() == 1);
                        assert(path_view(e.path@)[0] == e.path@[0]@);
                    }
                }
            }
            i = i + 1;
        }
        proof {
            assert(self@.take(self@.len() as int) =~= self@);
        }
        r
    }
}

/// A list of one error when `cond` holds, and of none otherwise.
pub open spec fn error_if(cond: bool, field: Seq<char>, code: Seq<char>) -> Seq<
    (Seq<Seq<char>>, Seq<char>),
> {
    if cond {
        seq![field_error(field, code)]
    } else {
        seq![]
    }
}

/// The result of a validation whose failed rules are `errs`.
pub open spec fn validation_result(
    r: Result<(), ValidationErrors>,
    errs: Seq<(Seq<Seq<char>>, Seq<char>)>,
) -> bool {
    match r {
        Ok(()) => errs.len() == 0,
        Err(e) => errs.len() > 0 && e@ == errs,
    }
}

/// Records the error when `cond` holds.
pub fn add_if(errors: &mut ValidationErrors, cond: bool, field: &'static str, code: &'static str)
    ensures
        final(errors)@ == old(errors)@ + error_if(cond, field@, code@),
{
    if cond {
        errors.add(field, code);
        proof {
            assert(errors@ =~= old(errors)@ + error_if(cond, field@, code@));
        }
    } else {
        proof {
            assert(errors@ =~= old(errors)@ + error_if(cond, field@, code@));
        }
    }
}

/// The result for the failed rules gathered in `errors`.
pub fn finish(errors: ValidationErrors) -> (r: Result<(), ValidationErrors>)
    ensures
        validation_result(r, errors@),
{
    if errors.is_empty() {
        Ok(())
    } else {
        Err(errors)
    }
}

} // verus!
