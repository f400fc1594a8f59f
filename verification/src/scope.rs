//! The binders that are open at a place in a term, and how a variable finds
//! its binder among them: by its unique id, or by its index.

use crate::ast::{DeBruijn, Name, NameView, Unique};
use vstd::prelude::*;

verus! {

/// The index of a variable with this unique id under the open binders
/// `scope`, outermost first: the distance to the nearest binder that carries
/// the unique id, the innermost binder being at distance 1.
pub open spec fn index_of(scope: Seq<NameView>, unique: int) -> Option<nat>
    decreases scope.len(),
{
    if scope.len() == 0 {
        None
    } else if scope.last().unique == unique {
        Some(1)
    } else {
        match index_of(scope.drop_last(), unique) {
            Some(index) => Some(index + 1),
            None => None,
        }
    }
}

/// The binder that a variable with this index refers to under the open
/// binders `scope`, outermost first. Index 0 refers to none.
pub open spec fn binder_at(scope: Seq<NameView>, index: nat) -> Option<NameView> {
    if 1 <= index <= scope.len() {
        Some(scope[scope.len() - index])
    } else {
        None
    }
}

/// `index_of` finds the nearest binder with the unique id, and none only
/// where no open binder carries it.
pub proof fn lemma_index_of(scope: Seq<NameView>, unique: int)
    ensures
        match index_of(scope, unique) {
            Some(index) => {
                &&& 1 <= index <= scope.len()
                &&& scope[scope.len() - index].unique == unique
                &&& forall|nearer: int|
                    1 <= nearer < index ==> (#[trigger] scope[scope.len() - nearer]).unique
                        != unique
            },
            None => forall|k: int| 0 <= k < scope.len() ==> (#[trigger] scope[k]).unique != unique,
        },
    decreases scope.len(),
{
    if scope.len() > 0 && scope.last().unique != unique {
        let outer = scope.drop_last();
        lemma_index_of(outer, unique);
        match index_of(outer, unique) {
            Some(index) => {
                assert forall|nearer: int| 1 <= nearer < index + 1 implies (
                #[trigger] scope[scope.len() - nearer]).unique != unique by {
                    if nearer > 1 {
                        assert(scope[scope.len() - nearer] == outer[outer.len() - (nearer - 1)]);
                    }
                }
            },
            None => {
                assert forall|k: int| 0 <= k < scope.len() implies (#[trigger] scope[k]).unique
                    != unique by {
                    if k < outer.len() {
                        assert(scope[k] == outer[k]);
                    }
                }
            },
        }
    }
}

/// The unique ids that the binders of `scope` carry.
pub open spec fn uniques(scope: Seq<NameView>) -> Set<int> {
    Set::new(
        |unique: int| exists|k: int| 0 <= k < scope.len() && (#[trigger] scope[k]).unique == unique,
    )
}

/// A variable is found among the open binders where one of them carries its
/// unique id, and only there.
pub proof fn lemma_index_of_bound(scope: Seq<NameView>, unique: int)
    ensures
        index_of(scope, unique) is Some <==> uniques(scope).contains(unique),
{
    lemma_index_of(scope, unique);
}

/// Opening a binder adds its unique id to those that are bound.
pub proof fn lemma_uniques_push(scope: Seq<NameView>, name: NameView)
    ensures
        uniques(scope.push(name)) == uniques(scope).insert(name.unique),
{
    let pushed = scope.push(name);
    assert forall|unique: int| uniques(pushed).contains(unique) <==> uniques(scope).insert(
        name.unique,
    ).contains(unique) by {
        if uniques(scope).contains(unique) {
            let k = choose|k: int| 0 <= k < scope.len() && (#[trigger] scope[k]).unique == unique;
            assert(pushed[k].unique == unique);
        }
        if unique == name.unique {
            assert(pushed[scope.len() as int].unique == unique);
        }
    }
}

/// The binders that are open at a place in a term, outermost first: a stack
/// that a conversion pushes on where it enters a lambda and pops where it
/// leaves one.
pub struct Scope {
    binders: Vec<Name>,
}

impl View for Scope {
    type V = Seq<NameView>;

    closed spec fn view(&self) -> Seq<NameView> {
        self.binders@.map_values(|name: Name| name@)
    }
}

impl Scope {
    /// The scope of a place that no lambda encloses.
    pub fn new() -> (scope: Self)
        ensures
            scope@ == Seq::<NameView>::empty(),
    {
        Scope { binders: Vec::new() }
    }

    /// The number of open binders.
    pub fn depth(&self) -> (depth: usize)
        ensures
            depth == self@.len(),
    {
        self.binders.len()
    }

    /// Open a binder, inside all that are open.
    pub fn enter(&mut self, name: Name)
        ensures
            final(self)@ == old(self)@.push(name@),
    {
        self.binders.push(name);
    }

    /// Close the innermost binder and hand it back, if a binder is open.
    pub fn leave(&mut self) -> (name: Option<Name>)
        ensures
            match name {
                Some(name) => old(self)@.len() > 0 && name@ == old(self)@.last() && final(self)@
                    == old(self)@.drop_last(),
                None => old(self)@.len() == 0 && final(self)@ == old(self)@,
            },
    {
        self.binders.pop()
    }

    /// The index of a variable with this unique id at this place, if a
    /// binder with the unique id is open.
    pub fn index_of(&self, unique: Unique) -> (index: Option<DeBruijn>)
        ensures
            match index {
                Some(index) => index_of(self@, unique@) == Some(index@),
                None => index_of(self@, unique@) is None,
            },
    {
        let depth = self.binders.len();
        let mut passed: usize = 0;
        while passed < depth
            invariant
                depth == self.binders.len(),
                passed <= depth,
                forall|nearer: int|
                    1 <= nearer <= passed ==> (#[trigger] self@[depth - nearer]).unique != unique@,
            decreases depth - passed,
        {
            let binder = &self.binders[depth - 1 - passed];
            proof {
                Unique::lemma_view_injective(binder.unique, unique);
                assert(self@[depth - (passed + 1)] == binder@);
            }
            if binder.unique == unique {
                proof {
                    lemma_index_of(self@, unique@);
                }
                return Some(DeBruijn::new(passed + 1));
            }
            passed += 1;
        }
        proof {
            lemma_index_of(self@, unique@);
        }
        None
    }

    /// The name of the binder that a variable with this index refers to at
    /// this place, if it refers to one.
    pub fn binder_at(&self, index: DeBruijn) -> (name: Option<Name>)
        ensures
            match name {
                Some(name) => binder_at(self@, index@) == Some(name@),
                None => binder_at(self@, index@) is None,
            },
    {
        let distance = usize::from(index);
        let depth = self.binders.len();
        if 1 <= distance && distance <= depth {
            Some(self.binders[depth - distance].clone())
        } else {
            None
        }
    }
}

} // verus!
