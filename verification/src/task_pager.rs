use crate::api_types::TaskIds;
use crate::strings::owned;
use vstd::prelude::*;

verus! {

/// What to do next when listing an aggregator's task ids page by page.
#[derive(Debug)]
pub enum PagerStep {
    /// The next task id.
    Next(String),
    /// Fetch the next page, from the given token; the first page has none.
    Fetch(Option<String>),
    /// Every task id was yielded.
    Done,
}

/// The texts of a list of strings.
pub open spec fn texts(v: Seq<String>) -> Seq<Seq<char>> {
    v.map_values(|s: String| s@)
}

/// Walks the pages of an aggregator's task ids: it yields the ids of the
/// current page in order, asks for the next page while the current one has a
/// pagination token, and ends after a page without one. It yields every
/// id of every page it was given, once and in order.
pub struct TaskIdPager {
    /// The ids of the current page not yielded yet, and its token; no
    /// page before the first one arrives.
    page: Option<(Vec<String>, Option<String>)>,
    /// Where in the current page's ids the next one to yield stands.
    next: usize,
    /// Every id of every page received so far.
    received: Ghost<Seq<Seq<char>>>,
    /// Every id yielded so far.
    given: Ghost<Seq<Seq<char>>>,
}

impl TaskIdPager {
    #[verifier::type_invariant]
    closed spec fn well_formed(self) -> bool {
        match self.page {
            Some((ids, _)) => {
                &&& self.next <= ids@.len()
                &&& self.given@ + texts(ids@).skip(self.next as int) == self.received@
            },
            None => self.next == 0 && self.given@.len() == 0 && self.received@.len() == 0,
        }
    }

    /// The ids of every page received so far.
    pub closed spec fn received(self) -> Seq<Seq<char>> {
        self.received@
    }

    /// The ids yielded so far.
    pub closed spec fn given(self) -> Seq<Seq<char>> {
        self.given@
    }

    /// Whether no page arrived yet.
    pub closed spec fn before_first_page(self) -> bool {
        self.page is None
    }

    /// The pagination token of the current page.
    pub closed spec fn token(self) -> Option<Seq<char>> {
        match self.page {
            Some((_, Some(t))) => Some(t@),
            _ => None,
        }
    }

    /// A pager before its first page.
    pub fn new() -> (r: TaskIdPager)
        ensures
            r.before_first_page(),
            r.received() == Seq::<Seq<char>>::empty(),
            r.given() == Seq::<Seq<char>>::empty(),
    {
        TaskIdPager { page: None, next: 0, received: Ghost(Seq::empty()), given: Ghost(Seq::empty()) }
    }

    /// Takes the page that the last `Fetch` asked for; every id of the pages
    /// before it was yielded.
    pub fn receive(&mut self, page: TaskIds)
        requires
            old(self).given() == old(self).received(),
        ensures
            final(self).received() == old(self).received() + texts(page.task_ids@),
            final(self).given() == old(self).given(),
            !final(self).before_first_page(),
            final(self).token() == (match page.pagination_token {
                Some(t) => Some(t@),
                None => None,
            }),
    {
        proof {
            use_type_invariant(&*self);
        }
        let ghost received = self.received@ + texts(page.task_ids@);
        let ghost given = self.given@;
        proof {
            assert(given + texts(page.task_ids@).skip(0) =~= received);
        }
        *self = TaskIdPager {
            page: Some((page.task_ids, page.pagination_token)),
            next: 0,
            received: Ghost(received),
            given: Ghost(given),
        };
    }

    /// What to do next: yield the next id of the current page; else fetch
    /// the next page while there is one (the first page before any); else
    /// stop.
    pub fn step(&mut self) -> (r: PagerStep)
        ensures
            final(self).received() == old(self).received(),
            final(self).before_first_page() == old(self).before_first_page(),
            final(self).token() == old(self).token(),
            match r {
                PagerStep::Next(id) => {
                    &&& old(self).given().len() < old(self).received().len()
                    &&& id@ == old(self).received()[old(self).given().len() as int]
                    &&& final(self).given() == old(self).given().push(id@)
                },
                PagerStep::Fetch(token) => {
                    &&& old(self).given() == old(self).received()
                    &&& final(self).given() == old(self).given()
                    &&& (old(self).before_first_page() || old(self).token() is Some)
                    &&& match token {
                        Some(t) => old(self).token() == Some(t@),
                        None => old(self).token() is None,
                    }
                },
                PagerStep::Done => {
                    &&& old(self).given() == old(self).received()
                    &&& final(self).given() == old(self).given()
                    &&& !old(self).before_first_page()
                    &&& old(self).token() is None
                },
            },
    {
        proof {
            use_type_invariant(&*self);
        }
        let ghost old_given = self.given@;
        let ghost old_received = self.received@;
        let mut current = TaskIdPager::new();
        std::mem::swap(self, &mut current);
        proof {
            use_type_invariant(&current);
        }
        let TaskIdPager { page, next, received, given } = current;
        match page {
            Some((ids, token)) => {
                if next < ids.len() {
                    let id = owned(ids[next].as_str());
                    let ghost now_given = given@.push(id@);
                    proof {
                        assert(texts(ids@).skip(next as int) =~= seq![id@] + texts(ids@).skip(
                            next + 1,
                        ));
                        assert(now_given + texts(ids@).skip(next + 1) =~= old_received);
                    }
                    *self = TaskIdPager {
                        page: Some((ids, token)),
                        next: next + 1,
                        received,
                        given: Ghost(now_given),
                    };
                    PagerStep::Next(id)
                } else {
                    proof {
                        assert(texts(ids@).skip(next as int) =~= Seq::<Seq<char>>::empty());
                        assert(old_given =~= old_received);
                    }
                    let step = match &token {
                        Some(t) => PagerStep::Fetch(Some(owned(t.as_str()))),
                        None => PagerStep::Done,
                    };
                    *self = TaskIdPager { page: Some((ids, token)), next, received, given };
                    step
                }
            },
            None => {
                *self = TaskIdPager { page: None, next, received, given };
                PagerStep::Fetch(None)
            },
        }
    }
}

} // verus!
