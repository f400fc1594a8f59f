use uplc::ast::{Constant, DeBruijn, FakeNamedDeBruijn, Name, NamedDeBruijn, Term, Unique};
use uplc::builtins::DefaultFunction;
use uplc::debruijn::{Converter, Error};

fn name(text: &str, unique: isize) -> Name {
    Name { text: text.to_string(), unique: Unique::new(unique) }
}

fn named(text: &str, index: usize) -> NamedDeBruijn {
    NamedDeBruijn { text: text.to_string(), index: DeBruijn::new(index) }
}

fn var<T>(binder: T) -> Term<T> {
    Term::Var(binder)
}

fn lambda<T>(parameter_name: T, body: Term<T>) -> Term<T> {
    Term::Lambda { parameter_name, body: Box::new(body) }
}

fn apply<T>(function: Term<T>, argument: Term<T>) -> Term<T> {
    Term::Apply { function: Box::new(function), argument: Box::new(argument) }
}

fn delay<T>(term: Term<T>) -> Term<T> {
    Term::Delay(Box::new(term))
}

fn force<T>(term: Term<T>) -> Term<T> {
    Term::Force(Box::new(term))
}

fn at(index: usize) -> DeBruijn {
    DeBruijn::new(index)
}

#[test]
fn identity_function_gets_index_one() {
    let term = lambda(name("x", 0), var(name("x", 0)));
    let converted = Converter::new().name_to_named_debruijn(term).unwrap();
    assert_eq!(converted, lambda(named("x", 0), var(named("x", 1))));
}

#[test]
fn outer_binder_gets_index_two() {
    let term = lambda(name("x", 0), lambda(name("y", 1), var(name("x", 0))));
    assert_eq!(
        Converter::new().name_to_named_debruijn(term.clone()),
        Ok(lambda(named("x", 0), lambda(named("y", 0), var(named("x", 2)))))
    );
    assert_eq!(
        Converter::new().name_to_debruijn(term),
        Ok(lambda(at(0), lambda(at(0), var(at(2)))))
    );
}

#[test]
fn free_variable_is_reported() {
    let term = var(name("y", 7));
    assert_eq!(Converter::new().name_to_debruijn(term), Err(Error::FreeUnique(name("y", 7))));
}

#[test]
fn free_variable_under_other_binders_is_reported() {
    let term = lambda(name("x", 0), delay(apply(var(name("x", 0)), var(name("z", 9)))));
    assert_eq!(
        Converter::new().name_to_named_debruijn(term.clone()),
        Err(Error::FreeUnique(name("z", 9)))
    );
    assert_eq!(Converter::new().name_to_debruijn(term), Err(Error::FreeUnique(name("z", 9))));
}

#[test]
fn first_free_variable_from_the_left_is_reported() {
    let term = apply(force(var(name("a", 1))), var(name("b", 2)));
    assert_eq!(
        Converter::new().name_to_named_debruijn(term),
        Err(Error::FreeUnique(name("a", 1)))
    );
}

#[test]
fn binder_is_closed_where_its_lambda_ends() {
    let term = apply(lambda(name("x", 0), var(name("x", 0))), var(name("x", 0)));
    assert_eq!(
        Converter::new().name_to_named_debruijn(term.clone()),
        Err(Error::FreeUnique(name("x", 0)))
    );
    assert_eq!(Converter::new().name_to_debruijn(term), Err(Error::FreeUnique(name("x", 0))));
}

#[test]
fn names_are_told_apart_by_unique_not_by_text() {
    let term = lambda(name("x", 0), lambda(name("x", 1), var(name("other", 0))));
    assert_eq!(
        Converter::new().name_to_named_debruijn(term),
        Ok(lambda(named("x", 0), lambda(named("x", 0), var(named("other", 2)))))
    );
    let term = lambda(name("x", 0), var(name("x", 1)));
    assert_eq!(Converter::new().name_to_debruijn(term), Err(Error::FreeUnique(name("x", 1))));
}

#[test]
fn nearest_binder_with_the_unique_wins() {
    let term = lambda(name("x", 3), lambda(name("x", 3), var(name("x", 3))));
    assert_eq!(
        Converter::new().name_to_debruijn(term),
        Ok(lambda(at(0), lambda(at(0), var(at(1)))))
    );
}

#[test]
fn index_beyond_the_binders_is_reported() {
    let term = lambda(at(0), lambda(at(0), var(at(5))));
    assert_eq!(Converter::new().debruijn_to_name(term), Err(Error::FreeIndex(at(5))));
    let term = lambda(named("x", 0), lambda(named("y", 0), var(named("z", 5))));
    assert_eq!(Converter::new().named_debruijn_to_name(term), Err(Error::FreeIndex(at(5))));
}

#[test]
fn index_just_in_and_just_out_of_scope() {
    let inside = lambda(at(0), lambda(at(0), var(at(2))));
    assert!(Converter::new().debruijn_to_name(inside).is_ok());
    let outside = lambda(at(0), lambda(at(0), var(at(3))));
    assert_eq!(Converter::new().debruijn_to_name(outside), Err(Error::FreeIndex(at(3))));
}

#[test]
fn index_zero_refers_to_no_binder() {
    let term = lambda(at(0), var(at(0)));
    assert_eq!(Converter::new().debruijn_to_name(term), Err(Error::FreeIndex(at(0))));
    let term = lambda(named("x", 0), var(named("x", 0)));
    assert_eq!(Converter::new().named_debruijn_to_name(term), Err(Error::FreeIndex(at(0))));
    assert_eq!(Converter::new().debruijn_to_name(var(at(0))), Err(Error::FreeIndex(at(0))));
}

#[test]
fn index_of_a_closed_lambda_is_reported() {
    let term = apply(lambda(at(0), var(at(1))), var(at(1)));
    assert_eq!(Converter::new().debruijn_to_name(term), Err(Error::FreeIndex(at(1))));
}

#[test]
fn names_are_made_in_the_order_of_the_lambdas() {
    let term = apply(
        lambda(named("f", 0), lambda(named("x", 0), apply(var(named("f", 2)), var(named("x", 1))))),
        lambda(named("y", 0), var(named("y", 1))),
    );
    assert_eq!(
        Converter::new().named_debruijn_to_name(term),
        Ok(apply(
            lambda(name("f", 0), lambda(name("x", 1), apply(var(name("f", 0)), var(name("x", 1))))),
            lambda(name("y", 2), var(name("y", 2))),
        ))
    );
}

#[test]
fn variable_takes_the_name_of_its_binder() {
    let term = lambda(named("binder", 0), var(named("use", 1)));
    assert_eq!(
        Converter::new().named_debruijn_to_name(term),
        Ok(lambda(name("binder", 0), var(name("binder", 0))))
    );
}

#[test]
fn parameter_index_is_not_read() {
    let term = lambda(named("x", 17), var(named("x", 1)));
    assert_eq!(
        Converter::new().named_debruijn_to_name(term),
        Ok(lambda(name("x", 0), var(name("x", 0))))
    );
    let term = lambda(at(17), var(at(1)));
    assert_eq!(
        Converter::new().debruijn_to_name(term),
        Ok(lambda(name("i", 0), var(name("i", 0))))
    );
}

#[test]
fn bare_indices_get_placeholder_names() {
    let term = lambda(at(0), lambda(at(0), apply(var(at(2)), var(at(1)))));
    assert_eq!(
        Converter::new().debruijn_to_name(term),
        Ok(lambda(name("i", 0), lambda(name("i", 1), apply(var(name("i", 0)), var(name("i", 1))))))
    );
}

#[test]
fn names_dropped_and_placeholders_put() {
    let term = lambda(named("x", 0), apply(var(named("x", 1)), var(named("free", 4))));
    let mut converter = Converter::new();
    let bare = converter.named_debruijn_to_debruijn(term);
    assert_eq!(bare, lambda(at(0), apply(var(at(1)), var(at(4)))));
    let labelled = converter.debruijn_to_named_debruijn(bare.clone());
    assert_eq!(labelled, lambda(named("i", 0), apply(var(named("i", 1)), var(named("i", 4)))));
    // a second round trip changes nothing any more
    let bare_again = converter.named_debruijn_to_debruijn(labelled.clone());
    assert_eq!(bare_again, bare);
    assert_eq!(converter.debruijn_to_named_debruijn(bare_again), labelled);
}

#[test]
fn fake_form_and_back_is_the_same_term() {
    let term = lambda(named("x", 0), force(apply(var(named("x", 1)), var(named("y", 3)))));
    let mut converter = Converter::new();
    let fake = converter.named_debruijn_to_fake_named_debruijn(term.clone());
    assert_eq!(
        fake,
        lambda(
            FakeNamedDeBruijn::from(named("x", 0)),
            force(apply(
                var(FakeNamedDeBruijn::from(named("x", 1))),
                var(FakeNamedDeBruijn::from(named("y", 3))),
            )),
        )
    );
    assert_eq!(converter.fake_named_debruijn_to_named_debruijn(fake.clone()), term);
    let term_again = converter.fake_named_debruijn_to_named_debruijn(fake.clone());
    assert_eq!(converter.named_debruijn_to_fake_named_debruijn(term_again), fake);
}

#[test]
fn round_trip_through_indices_is_alpha_equivalent() {
    let term = lambda(
        name("f", 10),
        apply(
            lambda(name("x", 20), apply(var(name("f", 10)), var(name("x", 20)))),
            lambda(name("x", 20), lambda(name("y", 30), var(name("x", 20)))),
        ),
    );
    let indexed = Converter::new().name_to_named_debruijn(term.clone()).unwrap();
    let renamed = Converter::new().named_debruijn_to_name(indexed.clone()).unwrap();
    assert_eq!(
        renamed,
        lambda(
            name("f", 0),
            apply(
                lambda(name("x", 1), apply(var(name("f", 0)), var(name("x", 1)))),
                lambda(name("x", 2), lambda(name("y", 3), var(name("x", 2)))),
            ),
        )
    );
    assert_eq!(Converter::new().name_to_named_debruijn(renamed), Ok(indexed));

    let bare = Converter::new().name_to_debruijn(term).unwrap();
    let renamed = Converter::new().debruijn_to_name(bare.clone()).unwrap();
    assert_eq!(Converter::new().name_to_debruijn(renamed), Ok(bare));
}

#[test]
fn leaves_are_kept_as_they_are() {
    let term = apply(
        force(Term::Builtin(DefaultFunction::IfThenElse)),
        apply(
            Term::Constant(Constant::Integer(-7)),
            apply(
                Term::Constant(Constant::ByteString(vec![0, 255])),
                apply(
                    Term::Constant(Constant::String("text".to_string())),
                    apply(
                        Term::Constant(Constant::Char('c')),
                        apply(
                            Term::Constant(Constant::Unit),
                            apply(Term::Constant(Constant::Bool(true)), delay(Term::Error)),
                        ),
                    ),
                ),
            ),
        ),
    );
    fn expected<T>() -> Term<T> {
        apply(
            force(Term::Builtin(DefaultFunction::IfThenElse)),
            apply(
                Term::Constant(Constant::Integer(-7)),
                apply(
                    Term::Constant(Constant::ByteString(vec![0, 255])),
                    apply(
                        Term::Constant(Constant::String("text".to_string())),
                        apply(
                            Term::Constant(Constant::Char('c')),
                            apply(
                                Term::Constant(Constant::Unit),
                                apply(Term::Constant(Constant::Bool(true)), delay(Term::Error)),
                            ),
                        ),
                    ),
                ),
            ),
        )
    }
    let mut converter = Converter::new();
    let named_form = converter.name_to_named_debruijn(term.clone()).unwrap();
    assert_eq!(named_form, expected());
    assert_eq!(converter.name_to_debruijn(term), Ok(expected()));
    assert_eq!(converter.named_debruijn_to_debruijn(named_form.clone()), expected());
    assert_eq!(converter.debruijn_to_named_debruijn(expected()), expected());
    assert_eq!(converter.named_debruijn_to_fake_named_debruijn(named_form.clone()), expected());
    assert_eq!(converter.fake_named_debruijn_to_named_debruijn(expected()), expected());
    assert_eq!(converter.named_debruijn_to_name(named_form), Ok(expected()));
    assert_eq!(converter.debruijn_to_name(expected()), Ok(expected()));
}

#[test]
fn converter_is_left_without_open_binders() {
    let mut converter = Converter::new();
    let failing = lambda(name("x", 0), lambda(name("y", 1), var(name("z", 2))));
    assert_eq!(converter.name_to_debruijn(failing), Err(Error::FreeUnique(name("z", 2))));
    // the two lambdas that were open at the failure are closed again
    assert_eq!(converter.name_to_debruijn(var(name("x", 0))), Err(Error::FreeUnique(name("x", 0))));
    assert_eq!(converter.debruijn_to_name(var(at(1))), Err(Error::FreeIndex(at(1))));
    let failing = lambda(at(0), var(at(2)));
    assert_eq!(converter.debruijn_to_name(failing), Err(Error::FreeIndex(at(2))));
    assert_eq!(converter.debruijn_to_name(var(at(1))), Err(Error::FreeIndex(at(1))));
}

#[test]
fn one_converter_never_makes_a_unique_twice() {
    let mut converter = Converter::new();
    let first = converter.debruijn_to_name(lambda(at(0), var(at(1))));
    assert_eq!(first, Ok(lambda(name("i", 0), var(name("i", 0)))));
    let second = converter.named_debruijn_to_name(lambda(named("x", 0), var(named("x", 1))));
    assert_eq!(second, Ok(lambda(name("x", 1), var(name("x", 1)))));
    // a lambda that was entered before a failure has used up its unique
    let failing = converter.debruijn_to_name(lambda(at(0), var(at(9))));
    assert_eq!(failing, Err(Error::FreeIndex(at(9))));
    let third = converter.debruijn_to_name(lambda(at(0), var(at(1))));
    assert_eq!(third, Ok(lambda(name("i", 3), var(name("i", 3)))));
}

#[test]
fn deep_nesting_counts_every_binder() {
    let mut term = var(name("x0", 0));
    for depth in 0..50isize {
        term = lambda(name("x", 49 - depth), term);
    }
    let mut expected = var(at(50));
    for _ in 0..50 {
        expected = lambda(at(0), expected);
    }
    assert_eq!(Converter::new().name_to_debruijn(term), Ok(expected));
}

#[test]
fn converter_counts_from_where_it_is_told() {
    let mut converter = Converter::counting_from(Unique::new(100));
    assert_eq!(converter.first_unused(), Unique::new(100));
    let term = lambda(at(0), lambda(at(0), var(at(2))));
    assert_eq!(
        converter.debruijn_to_name(term),
        Ok(lambda(name("i", 100), lambda(name("i", 101), var(name("i", 100)))))
    );
    assert_eq!(converter.first_unused(), Unique::new(102));
}

#[test]
fn new_converter_counts_from_zero() {
    let mut converter = Converter::new();
    assert_eq!(converter.first_unused(), Unique::new(0));
    let _ = converter.name_to_debruijn(lambda(name("x", 0), var(name("x", 0))));
    // no name is made where names are read
    assert_eq!(converter.first_unused(), Unique::new(0));
    let _ = converter.named_debruijn_to_name(lambda(named("x", 0), var(named("x", 1))));
    assert_eq!(converter.first_unused(), Unique::new(1));
}

#[test]
fn after_the_largest_unique_comes_the_smallest() {
    let mut converter = Converter::counting_from(Unique::new(isize::MAX - 1));
    let term = lambda(at(0), lambda(at(0), lambda(at(0), apply(var(at(3)), var(at(1))))));
    let renamed = converter.debruijn_to_name(term.clone()).unwrap();
    assert_eq!(
        renamed,
        lambda(
            name("i", isize::MAX - 1),
            lambda(
                name("i", isize::MAX),
                lambda(
                    name("i", isize::MIN),
                    apply(var(name("i", isize::MAX - 1)), var(name("i", isize::MIN))),
                ),
            ),
        )
    );
    assert_eq!(converter.first_unused(), Unique::new(isize::MIN + 1));
    // the names still bind as the indices did
    assert_eq!(Converter::new().name_to_debruijn(renamed), Ok(term));
}
