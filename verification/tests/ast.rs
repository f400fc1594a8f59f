use uplc::ast::{
    Constant, DeBruijn, FakeNamedDeBruijn, Name, NamedDeBruijn, Program, Term, Unique,
};
use uplc::builtins::DefaultFunction;
use uplc::debruijn::Error;

fn name(text: &str, unique: isize) -> Name {
    Name { text: text.to_string(), unique: Unique::new(unique) }
}

fn named(text: &str, index: usize) -> NamedDeBruijn {
    NamedDeBruijn { text: text.to_string(), index: DeBruijn::new(index) }
}

#[test]
fn unique_is_its_number() {
    assert_eq!(Unique::new(5), Unique::from(5));
    assert_eq!(isize::from(Unique::new(-3)), -3);
    assert_ne!(Unique::new(1), Unique::new(2));
}

#[test]
fn increment_gives_the_next_unique() {
    let mut unique = Unique::new(41);
    unique.increment();
    assert_eq!(unique, Unique::new(42));
    let mut negative = Unique::new(-1);
    negative.increment();
    assert_eq!(negative, Unique::new(0));
}

#[test]
fn unique_is_written_in_decimal() {
    assert_eq!(Unique::new(0).to_string(), "0");
    assert_eq!(Unique::new(7).to_string(), "7");
    assert_eq!(Unique::new(10).to_string(), "10");
    assert_eq!(Unique::new(1203).to_string(), "1203");
    assert_eq!(Unique::new(-45).to_string(), "-45");
    assert_eq!(Unique::new(isize::MAX).to_string(), format!("{}", isize::MAX));
    assert_eq!(Unique::new(isize::MIN).to_string(), format!("{}", isize::MIN));
}

#[test]
fn debruijn_is_its_number() {
    assert_eq!(DeBruijn::new(3), DeBruijn::from(3));
    assert_eq!(usize::from(DeBruijn::new(9)), 9);
    let index: DeBruijn = 4usize.into();
    assert_eq!(index, DeBruijn::new(4));
}

#[test]
fn bare_index_gets_the_placeholder_text() {
    assert_eq!(NamedDeBruijn::from(DeBruijn::new(2)), named("i", 2));
}

#[test]
fn named_index_loses_its_text() {
    assert_eq!(DeBruijn::from(named("x", 2)), DeBruijn::new(2));
}

#[test]
fn fake_named_index_wraps_and_unwraps() {
    let fake = FakeNamedDeBruijn::from(named("x", 3));
    assert_eq!(NamedDeBruijn::from(fake.clone()), named("x", 3));
    assert_eq!(DeBruijn::from(fake), DeBruijn::new(3));
    let made = FakeNamedDeBruijn::from(DeBruijn::new(6));
    assert_eq!(NamedDeBruijn::from(made), named("i", 6));
}

#[test]
fn term_is_converted_by_try_from() {
    let term = Term::Lambda {
        parameter_name: name("x", 0),
        body: Box::new(Term::Var(name("x", 0))),
    };
    let named_form = Term::<NamedDeBruijn>::try_from(term.clone()).unwrap();
    assert_eq!(
        named_form,
        Term::Lambda { parameter_name: named("x", 0), body: Box::new(Term::Var(named("x", 1))) }
    );
    let bare_form: Term<DeBruijn> = term.try_into().unwrap();
    assert_eq!(
        bare_form,
        Term::Lambda {
            parameter_name: DeBruijn::new(0),
            body: Box::new(Term::Var(DeBruijn::new(1))),
        }
    );
}

#[test]
fn term_comes_back_to_names_by_try_from() {
    let named_form =
        Term::Lambda { parameter_name: named("x", 0), body: Box::new(Term::Var(named("y", 1))) };
    assert_eq!(
        Term::<Name>::try_from(named_form),
        Ok(Term::Lambda { parameter_name: name("x", 0), body: Box::new(Term::Var(name("x", 0))) })
    );
    let bare_form = Term::Lambda {
        parameter_name: DeBruijn::new(0),
        body: Box::new(Term::Var(DeBruijn::new(1))),
    };
    assert_eq!(
        Term::<Name>::try_from(bare_form),
        Ok(Term::Lambda { parameter_name: name("i", 0), body: Box::new(Term::Var(name("i", 0))) })
    );
}

#[test]
fn term_changes_index_form_by_from() {
    let named_form = Term::Apply {
        function: Box::new(Term::Var(named("f", 2))),
        argument: Box::new(Term::Var(named("x", 1))),
    };
    let bare_form = Term::<DeBruijn>::from(named_form.clone());
    assert_eq!(
        bare_form,
        Term::Apply {
            function: Box::new(Term::Var(DeBruijn::new(2))),
            argument: Box::new(Term::Var(DeBruijn::new(1))),
        }
    );
    assert_eq!(
        Term::<NamedDeBruijn>::from(bare_form),
        Term::Apply {
            function: Box::new(Term::Var(named("i", 2))),
            argument: Box::new(Term::Var(named("i", 1))),
        }
    );
    let fake_form = Term::<FakeNamedDeBruijn>::from(named_form.clone());
    assert_eq!(
        fake_form,
        Term::Apply {
            function: Box::new(Term::Var(FakeNamedDeBruijn::from(named("f", 2)))),
            argument: Box::new(Term::Var(FakeNamedDeBruijn::from(named("x", 1)))),
        }
    );
    assert_eq!(Term::<NamedDeBruijn>::from(fake_form), named_form);
}

#[test]
fn program_keeps_its_version() {
    let program = Program {
        version: (11, 22, 33),
        term: Term::Lambda {
            parameter_name: name("x", 0),
            body: Box::new(Term::Var(name("x", 0))),
        },
    };
    let named_form = Program::<NamedDeBruijn>::try_from(program.clone()).unwrap();
    assert_eq!(named_form.version, (11, 22, 33));
    assert_eq!(
        named_form.term,
        Term::Lambda { parameter_name: named("x", 0), body: Box::new(Term::Var(named("x", 1))) }
    );
    let bare_form = Program::<DeBruijn>::try_from(program).unwrap();
    assert_eq!(bare_form.version, (11, 22, 33));
    let fake_form = Program::<FakeNamedDeBruijn>::from(named_form.clone());
    assert_eq!(fake_form.version, (11, 22, 33));
    assert_eq!(Program::<NamedDeBruijn>::from(fake_form), named_form);
    let stripped = Program::<DeBruijn>::from(named_form.clone());
    assert_eq!(stripped, bare_form);
    let labelled = Program::<NamedDeBruijn>::from(stripped);
    assert_eq!(labelled.version, (11, 22, 33));
    let with_names = Program::<Name>::try_from(named_form).unwrap();
    assert_eq!(with_names.version, (11, 22, 33));
    let from_bare = Program::<Name>::try_from(bare_form).unwrap();
    assert_eq!(
        from_bare,
        Program {
            version: (11, 22, 33),
            term: Term::Lambda {
                parameter_name: name("i", 0),
                body: Box::new(Term::Var(name("i", 0))),
            },
        }
    );
}

#[test]
fn program_with_a_free_variable_is_refused() {
    let program = Program { version: (1, 0, 0), term: Term::Var(name("x", 4)) };
    assert_eq!(
        Program::<NamedDeBruijn>::try_from(program.clone()),
        Err(Error::FreeUnique(name("x", 4)))
    );
    assert_eq!(Program::<DeBruijn>::try_from(program), Err(Error::FreeUnique(name("x", 4))));
    let dangling = Program { version: (1, 0, 0), term: Term::Var(DeBruijn::new(1)) };
    assert_eq!(Program::<Name>::try_from(dangling), Err(Error::FreeIndex(DeBruijn::new(1))));
    let dangling = Program { version: (1, 0, 0), term: Term::Var(named("x", 1)) };
    assert_eq!(Program::<Name>::try_from(dangling), Err(Error::FreeIndex(DeBruijn::new(1))));
}

#[test]
fn clone_copies_the_whole_tree() {
    let term = Term::Apply {
        function: Box::new(Term::Force(Box::new(Term::Builtin(DefaultFunction::IfThenElse)))),
        argument: Box::new(Term::Delay(Box::new(Term::Lambda {
            parameter_name: name("x", 1),
            body: Box::new(Term::Constant(Constant::ByteString(vec![1, 2, 3]))),
        }))),
    };
    assert_eq!(term.clone(), term);
    let program = Program { version: (1, 2, 3), term };
    assert_eq!(program.clone(), program);
    assert_eq!(Term::<Name>::Error.clone(), Term::Error);
    assert_eq!(Term::Var(name("v", 2)).clone(), Term::Var(name("v", 2)));
}

#[test]
fn placeholder_text_is_i() {
    assert_eq!(uplc::ast::PLACEHOLDER_TEXT, "i");
}
