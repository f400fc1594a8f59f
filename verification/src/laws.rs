//! What holds of the conversions whatever the term: when they fail, and what
//! comes back from a round trip.

use crate::ast::{FakeNamedDeBruijnView, NameView, NamedDeBruijnView, TermView};
use crate::debruijn::{
    as_fake, as_named, first_free_index, first_free_variable, successor, to_debruijn, to_name,
    to_named_debruijn, with_placeholders, without_names, ErrorView,
};
use crate::scope::{index_of, lemma_index_of, lemma_index_of_bound, lemma_uniques_push, uniques};
use vstd::prelude::*;

verus! {

// When a conversion fails

/// Converting names to indices succeeds where every variable is bound, and
/// else fails with the name of the first variable that is free.
pub proof fn lemma_free_variable_fails(term: TermView<NameView>, scope: Seq<NameView>)
    ensures
        match first_free_variable(term, uniques(scope)) {
            Some(name) => to_named_debruijn(term, scope) == Err::<
                TermView<NamedDeBruijnView>,
                ErrorView,
            >(ErrorView::FreeUnique(name)) && to_debruijn(term, scope) == Err::<
                TermView<nat>,
                ErrorView,
            >(ErrorView::FreeUnique(name)),
            None => to_named_debruijn(term, scope) is Ok && to_debruijn(term, scope) is Ok,
        },
    decreases term,
{
    match term {
        TermView::Var(name) => {
            lemma_index_of_bound(scope, name.unique);
        },
        TermView::Delay(term) => {
            lemma_free_variable_fails(*term, scope);
        },
        TermView::Lambda { parameter_name, body } => {
            lemma_uniques_push(scope, parameter_name);
            lemma_free_variable_fails(*body, scope.push(parameter_name));
        },
        TermView::Apply { function, argument } => {
            lemma_free_variable_fails(*function, scope);
            lemma_free_variable_fails(*argument, scope);
        },
        TermView::Force(term) => {
            lemma_free_variable_fails(*term, scope);
        },
        _ => {},
    }
}

/// Converting indices to names succeeds where every index refers to a
/// binder, and else fails with the first index that refers to none.
pub proof fn lemma_free_index_fails(
    term: TermView<NamedDeBruijnView>,
    scope: Seq<NameView>,
    next: int,
)
    ensures
        match first_free_index(term, scope.len()) {
            Some(index) => to_name(term, scope, next).0 == Err::<TermView<NameView>, ErrorView>(
                ErrorView::FreeIndex(index),
            ),
            None => to_name(term, scope, next).0 is Ok,
        },
    decreases term,
{
    match term {
        TermView::Delay(term) => {
            lemma_free_index_fails(*term, scope, next);
        },
        TermView::Lambda { parameter_name, body } => {
            let name = NameView { text: parameter_name.text, unique: next };
            lemma_free_index_fails(*body, scope.push(name), successor(next));
        },
        TermView::Apply { function, argument } => {
            lemma_free_index_fails(*function, scope, next);
            lemma_free_index_fails(*argument, scope, to_name(*function, scope, next).1);
        },
        TermView::Force(term) => {
            lemma_free_index_fails(*term, scope, next);
        },
        _ => {},
    }
}

/// The index of a variable does not depend on the text of the open binders.
proof fn lemma_index_of_respelled(
    scope: Seq<NameView>,
    unique: int,
    respell: spec_fn(NameView) -> NameView,
)
    requires
        forall|name: NameView| (#[trigger] respell(name)).unique == name.unique,
    ensures
        index_of(scope.map_values(respell), unique) == index_of(scope, unique),
    decreases scope.len(),
{
    if scope.len() > 0 {
        lemma_index_of_respelled(scope.drop_last(), unique, respell);
        assert(scope.map_values(respell).drop_last() =~= scope.drop_last().map_values(respell));
    }
}

/// The text of a name is not read: a term converts to the same debruijn
/// form, or fails on the same variable, however its names and the open
/// binders are spelled.
pub proof fn lemma_text_is_not_read(
    term: TermView<NameView>,
    scope: Seq<NameView>,
    respell: spec_fn(NameView) -> NameView,
)
    requires
        forall|name: NameView| (#[trigger] respell(name)).unique == name.unique,
    ensures
        to_debruijn(term.map(respell), scope.map_values(respell)) == match to_debruijn(
            term,
            scope,
        ) {
            Ok(converted) => Ok(converted),
            Err(ErrorView::FreeUnique(name)) => Err(ErrorView::FreeUnique(respell(name))),
            Err(error) => Err(error),
        },
    decreases term,
{
    match term {
        TermView::Var(name) => {
            lemma_index_of_respelled(scope, name.unique, respell);
        },
        TermView::Delay(term) => {
            lemma_text_is_not_read(*term, scope, respell);
        },
        TermView::Lambda { parameter_name, body } => {
            lemma_text_is_not_read(*body, scope.push(parameter_name), respell);
            assert(scope.push(parameter_name).map_values(respell) =~= scope.map_values(
                respell,
            ).push(respell(parameter_name)));
        },
        TermView::Apply { function, argument } => {
            lemma_text_is_not_read(*function, scope, respell);
            lemma_text_is_not_read(*argument, scope, respell);
        },
        TermView::Force(term) => {
            lemma_text_is_not_read(*term, scope, respell);
        },
        _ => {},
    }
}

// The unique ids that are made

/// The number of lambdas in `term`.
pub open spec fn lambdas<B>(term: TermView<B>) -> nat
    decreases term,
{
    match term {
        TermView::Delay(term) => lambdas(*term),
        TermView::Lambda { parameter_name, body } => 1 + lambdas(*body),
        TermView::Apply { function, argument } => lambdas(*function) + lambdas(*argument),
        TermView::Force(term) => lambdas(*term),
        _ => 0,
    }
}

/// The number of unique ids that there are.
pub open spec fn unique_ids() -> int {
    isize::MAX - isize::MIN + 1
}

/// The unique id that is made `count` ids after `unique`.
pub open spec fn nth_successor(unique: int, count: nat) -> int
    decreases count,
{
    if count == 0 {
        unique
    } else {
        successor(nth_successor(unique, (count - 1) as nat))
    }
}

/// How many ids after `start` the unique id `unique` is made.
spec fn made_after(start: int, unique: int) -> int {
    if unique >= start {
        unique - start
    } else {
        unique - start + unique_ids()
    }
}

/// The ids that are made after `start` go once round all unique ids.
proof fn lemma_made_after(start: int, count: nat)
    requires
        isize::MIN <= start <= isize::MAX,
        count < unique_ids(),
    ensures
        isize::MIN <= nth_successor(start, count) <= isize::MAX,
        made_after(start, nth_successor(start, count)) == count,
    decreases count,
{
    if count > 0 {
        lemma_made_after(start, (count - 1) as nat);
    }
}

/// All unique ids are made before one is made twice.
pub proof fn lemma_successors_differ(start: int, earlier: nat, later: nat)
    requires
        isize::MIN <= start <= isize::MAX,
        earlier < later < unique_ids(),
    ensures
        nth_successor(start, earlier) != nth_successor(start, later),
{
    lemma_made_after(start, earlier);
    lemma_made_after(start, later);
}

/// To go on from the `first`th id after `unique` is to go on from `unique`.
proof fn lemma_successors_add(unique: int, first: nat, then: nat)
    ensures
        nth_successor(nth_successor(unique, first), then) == nth_successor(unique, first + then),
    decreases then,
{
    if then > 0 {
        lemma_successors_add(unique, first, (then - 1) as nat);
    }
}

/// The unique ids of the parameters of `term`, in the order in which its
/// lambdas are entered.
pub open spec fn parameter_uniques(term: TermView<NameView>) -> Seq<int>
    decreases term,
{
    match term {
        TermView::Delay(term) => parameter_uniques(*term),
        TermView::Lambda { parameter_name, body } => seq![parameter_name.unique]
            + parameter_uniques(*body),
        TermView::Apply { function, argument } => parameter_uniques(*function)
            + parameter_uniques(*argument),
        TermView::Force(term) => parameter_uniques(*term),
        _ => Seq::empty(),
    }
}

/// Where names are made, every lambda gets a unique id of its own: the
/// lambdas get the ids that are made from `next` on, one after the other in
/// the order in which they are entered, and no two of these are the same as
/// long as the term has no more lambdas than there are unique ids
/// (`lemma_successors_differ`).
pub proof fn lemma_names_are_new(term: TermView<NamedDeBruijnView>, scope: Seq<NameView>, next: int)
    requires
        to_name(term, scope, next).0 is Ok,
    ensures
        to_name(term, scope, next).1 == nth_successor(next, lambdas(term)),
        parameter_uniques(to_name(term, scope, next).0->Ok_0) == Seq::new(
            lambdas(term),
            |k: int| nth_successor(next, k as nat),
        ),
    decreases term,
{
    match term {
        TermView::Delay(term) => {
            lemma_names_are_new(*term, scope, next);
        },
        TermView::Lambda { parameter_name, body } => {
            let name = NameView { text: parameter_name.text, unique: next };
            lemma_names_are_new(*body, scope.push(name), successor(next));
            assert(nth_successor(next, 1) == successor(next)) by {
                reveal_with_fuel(nth_successor, 2);
            }
            assert forall|k: nat| nth_successor(successor(next), k) == nth_successor(
                next,
                1 + k,
            ) by {
                lemma_successors_add(next, 1, k);
            }
        },
        TermView::Apply { function, argument } => {
            lemma_names_are_new(*function, scope, next);
            let between = nth_successor(next, lambdas(*function));
            lemma_names_are_new(*argument, scope, between);
            assert forall|k: nat| nth_successor(between, k) == nth_successor(
                next,
                lambdas(*function) + k,
            ) by {
                lemma_successors_add(next, lambdas(*function), k);
            }
        },
        TermView::Force(term) => {
            lemma_names_are_new(*term, scope, next);
        },
        _ => {},
    }
}

// Round trips

/// Two terms in name form are alpha-equivalent where they are closed and
/// have the same debruijn form: the same shape, constants and builtins, and
/// every variable bound by the lambda at the same place.
pub open spec fn alpha_equivalent(left: TermView<NameView>, right: TermView<NameView>) -> bool {
    &&& to_debruijn(left, Seq::empty()) is Ok
    &&& to_debruijn(left, Seq::empty()) == to_debruijn(right, Seq::empty())
}

/// Whether every parameter of `term` has index 0.
pub open spec fn parameters_at_zero(term: TermView<NamedDeBruijnView>) -> bool
    decreases term,
{
    match term {
        TermView::Delay(term) => parameters_at_zero(*term),
        TermView::Lambda { parameter_name, body } => parameter_name.index == 0
            && parameters_at_zero(*body),
        TermView::Apply { function, argument } => parameters_at_zero(*function)
            && parameters_at_zero(*argument),
        TermView::Force(term) => parameters_at_zero(*term),
        _ => true,
    }
}

/// Whether the binders of `scope` were made after `start`, the `k`th of them
/// as the `made[k]`th id, each later than those around it.
spec fn made_in_order(scope: Seq<NameView>, start: int, made: Seq<nat>) -> bool {
    &&& made.len() == scope.len()
    &&& forall|k: int|
        0 <= k < scope.len() ==> (#[trigger] scope[k]).unique == nth_successor(start, made[k])
    &&& forall|j: int, k: int| 0 <= j < k < made.len() ==> made[j] < made[k]
}

/// What `to_named_debruijn` gives has every index in scope and every
/// parameter at index 0.
pub proof fn lemma_named_debruijn_in_scope(term: TermView<NameView>, scope: Seq<NameView>)
    requires
        to_named_debruijn(term, scope) is Ok,
    ensures
        first_free_index(to_named_debruijn(term, scope)->Ok_0, scope.len()) is None,
        parameters_at_zero(to_named_debruijn(term, scope)->Ok_0),
        lambdas(to_named_debruijn(term, scope)->Ok_0) == lambdas(term),
    decreases term,
{
    match term {
        TermView::Var(name) => {
            lemma_index_of(scope, name.unique);
        },
        TermView::Delay(term) => {
            lemma_named_debruijn_in_scope(*term, scope);
        },
        TermView::Lambda { parameter_name, body } => {
            lemma_named_debruijn_in_scope(*body, scope.push(parameter_name));
        },
        TermView::Apply { function, argument } => {
            lemma_named_debruijn_in_scope(*function, scope);
            lemma_named_debruijn_in_scope(*argument, scope);
        },
        TermView::Force(term) => {
            lemma_named_debruijn_in_scope(*term, scope);
        },
        _ => {},
    }
}

/// Names made for a term in scope bind as its indices do: the term that
/// `to_name` gives converts back to the same indices, where `count` ids were
/// made since `start`, those of `scope` among them, and enough are left for
/// the lambdas of the term.
proof fn lemma_names_bind_as_indices(
    term: TermView<NamedDeBruijnView>,
    scope: Seq<NameView>,
    start: int,
    count: nat,
    made: Seq<nat>,
)
    requires
        first_free_index(term, scope.len()) is None,
        parameters_at_zero(term),
        isize::MIN <= start <= isize::MAX,
        made_in_order(scope, start, made),
        forall|k: int| 0 <= k < made.len() ==> made[k] < count,
        count + lambdas(term) <= unique_ids(),
    ensures
        to_name(term, scope, nth_successor(start, count)).0 is Ok,
        to_name(term, scope, nth_successor(start, count)).1 == nth_successor(
            start,
            count + lambdas(term),
        ),
        to_debruijn(to_name(term, scope, nth_successor(start, count)).0->Ok_0, scope) == Ok::<
            TermView<nat>,
            ErrorView,
        >(without_names(term)),
    decreases term,
{
    match term {
        TermView::Var(binder) => {
            // no two open binders share a unique id, so the nearest binder with
            // the unique id of the one at this index is that one
            let at = scope.len() - binder.index;
            lemma_index_of(scope, scope[at].unique);
            let found = scope.len() - index_of(scope, scope[at].unique)->Some_0;
            if made[found] < made[at] {
                lemma_successors_differ(start, made[found], made[at]);
            }
            if made[at] < made[found] {
                lemma_successors_differ(start, made[at], made[found]);
            }
        },
        TermView::Delay(term) => {
            lemma_names_bind_as_indices(*term, scope, start, count, made);
        },
        TermView::Lambda { parameter_name, body } => {
            let name = NameView { text: parameter_name.text, unique: nth_successor(start, count) };
            lemma_names_bind_as_indices(
                *body,
                scope.push(name),
                start,
                count + 1,
                made.push(count),
            );
        },
        TermView::Apply { function, argument } => {
            lemma_names_bind_as_indices(*function, scope, start, count, made);
            lemma_names_bind_as_indices(
                *argument,
                scope,
                start,
                count + lambdas(*function),
                made,
            );
        },
        TermView::Force(term) => {
            lemma_names_bind_as_indices(*term, scope, start, count, made);
        },
        _ => {},
    }
}

/// Putting placeholders on a term in debruijn form and dropping them again
/// gives the term back.
pub proof fn lemma_placeholders_dropped(term: TermView<nat>)
    ensures
        without_names(with_placeholders(term)) == term,
{
    let label = |index: nat| crate::ast::with_placeholder(index);
    let strip = |binder: NamedDeBruijnView| binder.index;
    term.lemma_map_map(label, strip);
    term.lemma_map_identity(|index: nat| strip(label(index)));
}

/// Replacing the names of a term by placeholders keeps what `to_name` asks
/// of it: the indices in scope, the parameters at index 0, the lambdas.
proof fn lemma_placeholders_keep_scope(term: TermView<NamedDeBruijnView>, depth: nat)
    ensures
        first_free_index(with_placeholders(without_names(term)), depth) == first_free_index(
            term,
            depth,
        ),
        parameters_at_zero(term) ==> parameters_at_zero(with_placeholders(without_names(term))),
        lambdas(with_placeholders(without_names(term))) == lambdas(term),
    decreases term,
{
    match term {
        TermView::Delay(term) => {
            lemma_placeholders_keep_scope(*term, depth);
        },
        TermView::Lambda { parameter_name, body } => {
            lemma_placeholders_keep_scope(*body, depth + 1);
        },
        TermView::Apply { function, argument } => {
            lemma_placeholders_keep_scope(*function, depth);
            lemma_placeholders_keep_scope(*argument, depth);
        },
        TermView::Force(term) => {
            lemma_placeholders_keep_scope(*term, depth);
        },
        _ => {},
    }
}

/// From names to indices and back to names gives an alpha-equivalent term,
/// through named debruijn indices and through bare ones, from whatever unique
/// id the new names count, as long as the term has no more lambdas than there
/// are unique ids.
pub proof fn lemma_name_round_trip(term: TermView<NameView>, next: int)
    requires
        first_free_variable(term, Set::empty()) is None,
        isize::MIN <= next <= isize::MAX,
        lambdas(term) <= unique_ids(),
    ensures
        to_named_debruijn(term, Seq::empty()) matches Ok(indexed) && to_name(
            indexed,
            Seq::empty(),
            next,
        ).0 matches Ok(renamed) && alpha_equivalent(term, renamed),
        to_debruijn(term, Seq::empty()) matches Ok(indexed) && to_name(
            with_placeholders(indexed),
            Seq::empty(),
            next,
        ).0 matches Ok(renamed) && alpha_equivalent(term, renamed),
{
    let scope = Seq::<NameView>::empty();
    assert(uniques(scope) =~= Set::empty());
    lemma_free_variable_fails(term, scope);
    lemma_named_debruijn_in_scope(term, scope);
    let indexed = to_named_debruijn(term, scope)->Ok_0;
    lemma_names_bind_as_indices(indexed, scope, next, 0, Seq::empty());
    let bare = with_placeholders(without_names(indexed));
    lemma_placeholders_keep_scope(indexed, 0);
    lemma_names_bind_as_indices(bare, scope, next, 0, Seq::empty());
    lemma_placeholders_dropped(without_names(indexed));
}

/// From named debruijn indices to bare ones and back keeps the shape and
/// every index, and a second round trip changes nothing any more.
pub proof fn lemma_index_round_trip(term: TermView<NamedDeBruijnView>)
    ensures
        without_names(with_placeholders(without_names(term))) == without_names(term),
        with_placeholders(without_names(with_placeholders(without_names(term))))
            == with_placeholders(without_names(term)),
{
    lemma_placeholders_dropped(without_names(term));
}

/// From named debruijn indices to fake ones and back, and the other way
/// round, gives the term back, index and text.
pub proof fn lemma_fake_round_trip(
    named: TermView<NamedDeBruijnView>,
    fake: TermView<FakeNamedDeBruijnView>,
)
    ensures
        as_named(as_fake(named)) == named,
        as_fake(as_named(fake)) == fake,
{
    let wrap = |binder: NamedDeBruijnView| FakeNamedDeBruijnView { named: binder };
    let unwrap = |binder: FakeNamedDeBruijnView| binder.named;
    named.lemma_map_map(wrap, unwrap);
    named.lemma_map_identity(|binder: NamedDeBruijnView| unwrap(wrap(binder)));
    fake.lemma_map_map(unwrap, wrap);
    fake.lemma_map_identity(|binder: FakeNamedDeBruijnView| wrap(unwrap(binder)));
}

} // verus!
