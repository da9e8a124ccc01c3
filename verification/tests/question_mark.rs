//! Early-exit chaining through the failure-carrying monads.

use rsmonad::hazard::Hazard;
use rsmonad::maybe::Maybe;

fn hazard_should_short_circuit() -> Hazard<(), String> {
    let early: Hazard<(), String> = Hazard::Failure("Intentional short-circuit".to_owned());
    match early {
        Hazard::Failure(s) => return Hazard::Failure(s),
        Hazard::Success(x) => x,
    };
    Hazard::Success(())
}

#[test]
fn hazard_hazard_question_mark() {
    match hazard_should_short_circuit() {
        Hazard::Success(()) => panic!("Didn't exit early!"),
        Hazard::Failure(s) => assert_eq!(s, "Intentional short-circuit"),
    }
}

fn maybe_should_short_circuit() -> Maybe<()> {
    let early: Maybe<()> = Maybe::Nothing;
    match early {
        Maybe::Nothing => return Maybe::Nothing,
        Maybe::Just(x) => x,
    };
    Maybe::Just(())
}

#[test]
fn maybe_hazard_question_mark() {
    match maybe_should_short_circuit() {
        Maybe::Just(()) => panic!("Didn't exit early!"),
        Maybe::Nothing => (),
    }
}
