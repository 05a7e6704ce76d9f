//! The expression catalog: an ordered list of expressions whose ids are
//! unique and never reused, so that a reference by id to a removed entry can
//! be told apart from one to a live entry.

use vstd::prelude::*;
use crate::expression::{
    Expression,
    ExpressionSettings,
    normalized,
    is_default_expression,
};

verus! {

/// Whether `i` is the first position in `s` of an expression with id `id`.
pub open spec fn is_first_with_id(s: Seq<Expression>, id: u64, i: int) -> bool {
    &&& 0 <= i < s.len()
    &&& s[i].id == id
    &&& forall|j: int| 0 <= j < i ==> s[j].id != id
}

/// The position of the first expression in `s` with id `id`, if any.
pub open spec fn find_id(s: Seq<Expression>, id: u64) -> Option<int> {
    if exists|i: int| is_first_with_id(s, id, i) {
        Some(choose|i: int| is_first_with_id(s, id, i))
    } else {
        None
    }
}

/// No two expressions of `s` share an id.
pub open spec fn ids_unique(s: Seq<Expression>) -> bool {
    forall|i: int, j: int| 0 <= i < s.len() && 0 <= j < s.len() && i != j ==> s[i].id != s[j].id
}

/// Only one position can be the first with a given id.
pub proof fn lemma_find_id(s: Seq<Expression>, id: u64, i: int)
    requires
        is_first_with_id(s, id, i),
    ensures
        find_id(s, id) == Some(i),
{
    let k = choose|k: int| is_first_with_id(s, id, k);
    assert(is_first_with_id(s, id, k));
    if k < i {
        assert(s[k].id != id);
    } else if i < k {
        assert(s[i].id != id);
    }
}

/// In a catalog with unique ids, an expression is found at its own position.
pub proof fn lemma_find_unique(s: Seq<Expression>, i: int)
    requires
        ids_unique(s),
        0 <= i < s.len(),
    ensures
        find_id(s, s[i].id) == Some(i),
{
    assert(is_first_with_id(s, s[i].id, i));
    lemma_find_id(s, s[i].id, i);
}

/// Finds the position of the first expression in `s` with id `id`.
pub fn position_of_id(s: &Vec<Expression>, id: u64) -> (r: Option<usize>)
    ensures
        r matches Some(i) ==> find_id(s@, id) == Some(i as int),
        r is None ==> find_id(s@, id) is None,
{
    let mut k: usize = 0;
    while k < s.len()
        invariant
            k <= s@.len(),
            forall|j: int| 0 <= j < k ==> s@[j].id != id,
        decreases s@.len() - k,
    {
        if s[k].id == id {
            proof {
                lemma_find_id(s@, id, k as int);
            }
            return Some(k);
        }
        k = k + 1;
    }
    assert(!exists|i: int| is_first_with_id(s@, id, i));
    None
}

/// An ordered list of expressions with unique ids.
pub struct Catalog {
    entries: Vec<Expression>,
    next_id: u64,
}

impl View for Catalog {
    type V = Seq<Expression>;

    closed spec fn view(&self) -> Seq<Expression> {
        self.entries@
    }
}

impl Catalog {
    /// The id that the next added expression receives.
    pub closed spec fn spec_next_id(&self) -> u64 {
        self.next_id
    }

    /// Ids are unique and all below the next id to hand out.
    pub open spec fn wf(&self) -> bool {
        &&& ids_unique(self@)
        &&& forall|i: int| 0 <= i < self@.len() ==> #[trigger] self@[i].id < self.spec_next_id()
    }

    /// An empty catalog.
    pub fn new() -> (c: Catalog)
        ensures
            c.wf(),
            c@ == Seq::<Expression>::empty(),
            c.spec_next_id() == 0,
    {
        Catalog { entries: Vec::new(), next_id: 0 }
    }

    /// The expressions, in catalog order.
    pub fn entries(&self) -> (r: &Vec<Expression>)
        ensures
            r@ == self@,
    {
        &self.entries
    }

    /// The number of expressions.
    pub fn len(&self) -> (r: usize)
        ensures
            r == self@.len(),
    {
        self.entries.len()
    }

    /// Whether the catalog holds no expression.
    pub fn is_empty(&self) -> (r: bool)
        ensures
            r == (self@.len() == 0),
    {
        self.entries.len() == 0
    }

    fn push_with_fresh_id(&mut self, e: Expression)
        requires
            old(self).wf(),
            e.id == old(self).spec_next_id(),
            old(self).spec_next_id() < u64::MAX,
        ensures
            final(self).wf(),
            final(self)@ == old(self)@.push(e),
            final(self).spec_next_id() == old(self).spec_next_id() + 1,
    {
        self.entries.push(e);
        self.next_id = self.next_id + 1;
        assert forall|i: int| 0 <= i < self@.len() implies #[trigger] self@[i].id
            < self.spec_next_id() by {
            if i < old(self)@.len() {
                assert(self@[i] == old(self)@[i]);
            }
        }
    }

    /// Appends the expression that `settings` describe, normalised, under a
    /// fresh id, and returns that id; returns `None` and leaves the catalog
    /// as it is once every id has been handed out.
    pub fn add(&mut self, settings: ExpressionSettings) -> (r: Option<u64>)
        requires
            old(self).wf(),
        ensures
            final(self).wf(),
            old(self).spec_next_id() < u64::MAX ==> {
                &&& r == Some(old(self).spec_next_id())
                &&& final(self)@ == old(self)@.push(normalized(old(self).spec_next_id(), settings))
                &&& final(self).spec_next_id() == old(self).spec_next_id() + 1
            },
            old(self).spec_next_id() == u64::MAX ==> r is None && *final(self) == *old(self),
    {
        if self.next_id == u64::MAX {
            return None;
        }
        let id = self.next_id;
        let e = Expression::from_settings(id, settings);
        self.push_with_fresh_id(e);
        Some(id)
    }

    /// Appends a default expression under a fresh id and returns that id;
    /// returns `None` and leaves the catalog as it is once every id has been
    /// handed out.
    pub fn add_default(&mut self) -> (r: Option<u64>)
        requires
            old(self).wf(),
        ensures
            final(self).wf(),
            old(self).spec_next_id() < u64::MAX ==> {
                &&& r == Some(old(self).spec_next_id())
                &&& final(self)@.len() == old(self)@.len() + 1
                &&& final(self)@.drop_last() == old(self)@
                &&& is_default_expression(final(self)@.last(), old(self).spec_next_id())
                &&& final(self).spec_next_id() == old(self).spec_next_id() + 1
            },
            old(self).spec_next_id() == u64::MAX ==> r is None && *final(self) == *old(self),
    {
        if self.next_id == u64::MAX {
            return None;
        }
        let id = self.next_id;
        let e = Expression::default_with_id(id);
        self.push_with_fresh_id(e);
        proof {
            assert(self@.drop_last() =~= old(self)@);
        }
        Some(id)
    }

    /// Removes the expression at `index`; the others keep their ids and order.
    pub fn remove(&mut self, index: usize) -> (e: Expression)
        requires
            old(self).wf(),
            index < old(self)@.len(),
        ensures
            final(self).wf(),
            e == old(self)@[index as int],
            final(self)@ == old(self)@.remove(index as int),
            final(self).spec_next_id() == old(self).spec_next_id(),
    {
        let e = self.entries.remove(index);
        proof {
            let o = old(self)@;
            assert forall|i: int| 0 <= i < self@.len() implies self@[i] == o[if i < index {
                i
            } else {
                i + 1
            }] by {}
            assert forall|i: int, j: int|
                0 <= i < self@.len() && 0 <= j < self@.len() && i != j implies self@[i].id
                != self@[j].id by {
                let oi = if i < index {
                    i
                } else {
                    i + 1
                };
                let oj = if j < index {
                    j
                } else {
                    j + 1
                };
                assert(self@[i] == o[oi]);
                assert(self@[j] == o[oj]);
            }
            assert forall|i: int| 0 <= i < self@.len() implies #[trigger] self@[i].id
                < self.spec_next_id() by {
                let oi = if i < index {
                    i
                } else {
                    i + 1
                };
                assert(self@[i] == o[oi]);
            }
        }
        e
    }

    /// Replaces the settings of the expression at `index`, normalised; it
    /// keeps its id and place.
    pub fn update(&mut self, index: usize, settings: ExpressionSettings)
        requires
            old(self).wf(),
            index < old(self)@.len(),
        ensures
            final(self).wf(),
            final(self)@ == old(self)@.update(
                index as int,
                normalized(old(self)@[index as int].id, settings),
            ),
            final(self).spec_next_id() == old(self).spec_next_id(),
    {
        let id = self.entries[index].id;
        let e = Expression::from_settings(id, settings);
        self.entries.set(index, e);
        proof {
            let o = old(self)@;
            assert forall|i: int| 0 <= i < self@.len() implies #[trigger] self@[i].id == o[i].id by {
            }
            assert forall|i: int| 0 <= i < self@.len() implies #[trigger] self@[i].id
                < self.spec_next_id() by {
                assert(self@[i].id == o[i].id);
            }
        }
    }
}

} // verus!
