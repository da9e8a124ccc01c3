//! The algebraic laws on concrete values, and the law checks themselves.

use rsmonad::alternative::{either, empty, guard, Alternative};
use rsmonad::applicative::consume;
use rsmonad::entropy::reverse;
use rsmonad::hazard::Hazard;
use rsmonad::laws;
use rsmonad::list::List;
use rsmonad::maybe::Maybe::{self, Just, Nothing};
use rsmonad::monad_laws;
use rsmonad::monoid::{mappend, mconcat, mempty};
use rsmonad::prod::Product;
use rsmonad::prod_u8::ProductU8;
use rsmonad::sum::Sum;
use rsmonad::sum_u8::SumU8;

fn successor(x: u8) -> Maybe<u8> {
    x.checked_add(1).map_or(Nothing, Just)
}

#[test]
fn functor_identity_round_trip() {
    assert_eq!(Just(3).fmap(|x: u8| x), Just(3));
    assert_eq!(Nothing::<u8>.fmap(|x: u8| x), Nothing);
    assert_eq!(
        List::from_vec(vec![1, 2, 3]).fmap(|x: u8| x),
        List::from_vec(vec![1, 2, 3])
    );
    assert_eq!(Just(3).bind(|x: u8| Just(x)), Just(3));
}

#[test]
fn associativity_scenario() {
    let lhs = Just(3_u8).bind(successor).bind(successor);
    let rhs = Just(3_u8).bind(|a| successor(a).bind(successor));
    assert_eq!(lhs, rhs);
    assert_eq!(lhs, Just(5));
}

#[test]
fn overflow_short_circuit() {
    assert_eq!(Just(255_u8).bind(successor), Nothing);
    assert_eq!(Nothing.bind(successor), Nothing);
    assert_eq!(Just(3_u8).bind(successor), Just(4));
}

#[test]
fn law_checks_hold() {
    assert!(monad_laws::left_identity(7_u64, |x: u64| Just(x)));
    assert!(monad_laws::right_identity(Just(7_u64)));
    assert!(monad_laws::associativity(
        Just(7_u64),
        |x: u64| Just(x),
        |x: u64| Just(x)
    ));
    assert!(laws::left_identity(
        7_u64,
        |x: u64| Hazard::<u64, String>::Success(x)
    ));
    assert!(laws::right_identity(Hazard::<u64, String>::Success(7)));
    assert!(laws::associativity(
        Some(7_u64),
        |x: u64| Some(x),
        |x: u64| Some(x)
    ));
    assert!(laws::identity(Just(7_u64)));
    assert!(laws::composition(Just(7_u64), |x: u64| x, |x: u64| x));
    assert_eq!(monad_laws::hash(7_u64), laws::hash(7_u64));
}

#[test]
fn alternative_scenarios() {
    assert_eq!(empty::<Maybe<u8>, u8>(), Nothing);
    assert_eq!(Just(1).either(|| Just(2)), Just(1));
    assert_eq!(Nothing.either(|| Just(2)), Just(2));
    fn none_u8() -> Maybe<u8> {
        Nothing
    }
    fn just3() -> Maybe<u8> {
        Just(3)
    }
    assert_eq!(
        either(none_u8 as fn() -> Maybe<u8>, just3 as fn() -> Maybe<u8>),
        Just(3)
    );
    assert_eq!(guard::<Maybe<()>>(true), Just(()));
    assert_eq!(guard::<Maybe<()>>(false), Nothing);
    assert_eq!(consume::<Maybe<u8>, u8>(9), Just(9));
}

#[test]
fn monoid_scenarios() {
    assert_eq!(mappend(Sum(2), Sum(3)), Sum(5));
    assert_eq!(mempty::<Sum>(), Sum(0));
    assert_eq!(mappend(Product(4), Product(5)), Product(20));
    assert_eq!(mappend(SumU8(200), SumU8(100)), SumU8(44));
    assert_eq!(mappend(ProductU8(16), ProductU8(16)), ProductU8(0));
    assert_eq!(
        mconcat(List::from_vec(vec![SumU8(1), SumU8(2), SumU8(3)])),
        SumU8(6)
    );
    assert_eq!(mappend(false, true), true);
}

#[test]
fn entropy_scenarios() {
    assert_eq!(reverse(1), 1_u64 << 63);
    assert_eq!(reverse(reverse(0x0123_4567_89ab_cdef)), 0x0123_4567_89ab_cdef);
    let h: Maybe<u64> = monad_laws::hash_consume(7_u64);
    assert!(matches!(h, Just(_)));
    let r: Maybe<u64> = rsmonad::entropy::reverse_consume(1);
    assert_eq!(r, Just(1_u64 << 63));
}

#[test]
fn list_method_scenarios() {
    let mut li = List::from_vec(vec![1_u8, 2, 3]);
    assert_eq!(li.len(), 3);
    assert!(!li.is_empty());
    assert!(li.contains(&2));
    assert!(!li.contains(&9));
    assert!(li.starts_with(&vec![1, 2]));
    assert!(li.ends_with(&vec![2, 3]));
    li.push(4);
    assert_eq!(li.pop(), Just(4));
    li.insert(0, 0);
    assert_eq!(li.remove(0), 0);
    assert_eq!(li.swap_remove(0), 1);
    li.retain(|x| *x % 3 == 0);
    assert_eq!(li, List::from_vec(vec![3]));
    let mut other = List::from_vec(vec![7]);
    li.append(&mut other);
    assert_eq!(li, List::from_vec(vec![3, 7]));
    assert!(other.is_empty());
    li.reserve(10);
    li.reserve_exact(10);
    assert!(li.capacity() >= li.len());
    li.truncate(1);
    assert_eq!(li, List::from_vec(vec![3]));
    let doubled = List::from_vec(vec![1_u8, 2]).bind(|x| List::from_vec(vec![x, 10 * x]));
    assert_eq!(doubled, List::from_vec(vec![1, 10, 2, 20]));
}

#[test]
fn list_join_flattens() {
    let nested = List::from_vec(vec![
        List::from_vec(vec![1_u8, 2]),
        List::from_vec(vec![]),
        List::from_vec(vec![3]),
    ]);
    assert_eq!(nested.join(), List::from_vec(vec![1, 2, 3]));
    assert_eq!(
        Maybe::Just(Maybe::Just(4_u8)).join(),
        Maybe::Just(4)
    );
    assert_eq!(Maybe::Just(Maybe::Nothing::<u8>).join(), Maybe::Nothing);
}

#[test]
fn tie_applies_wrapped_functions() {
    fn double(x: u8) -> u8 {
        2 * x
    }
    assert_eq!(Just(3_u8).tie(Just(double as fn(u8) -> u8)), Just(6));
    assert_eq!(
        Nothing::<u8>.tie(Just(double as fn(u8) -> u8)),
        Nothing
    );
    assert_eq!(Just(3_u8).tie(Nothing::<fn(u8) -> u8>), Nothing);
}

#[test]
fn maybe_converts_with_option() {
    fn successor(x: u8) -> Maybe<u8> {
        x.checked_add(1).into()
    }
    assert_eq!(successor(3), Just(4));
    assert_eq!(successor(255), Nothing);
    assert_eq!(<Option<u8> as From<Maybe<u8>>>::from(Just(3_u8)), Some(3));
    assert_eq!(<Option<u8> as From<Maybe<u8>>>::from(Nothing::<u8>), None);
    assert_eq!(Maybe::from(Some(3_u8)), Just(3));
}
