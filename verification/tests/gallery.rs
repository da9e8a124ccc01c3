//! End-to-end uses of the concrete monads and monoids.

use rsmonad::fold::asum;
use rsmonad::fold::unify;
use rsmonad::list::List;
use rsmonad::sum_u8::SumU8;

#[test]
fn powers_of_two() {
    assert_eq!(
        List::from_vec(vec![0, 1, 2, 3, 4, 5])
            .fmap(u8::is_power_of_two)
            .into_vec(),
        vec![false, true, true, false, true, false]
    );
}

#[test]
fn monoidal_sum() {
    assert_eq!(
        unify(List::from_vec(vec![1, 2, 3, 4, 5]).fmap(SumU8)),
        SumU8(15)
    );
}

#[test]
fn first_valid_int() {
    // The monadic type system not only works but is so strong we can do this
    // with barely any annotations:
    let inputs: List<Box<dyn FnOnce() -> &'static str>> = List::from_vec(vec![
        Box::new(|| "this string isn't a number"),
        Box::new(|| "67"),
        Box::new(|| "that was, but not binary"),
        Box::new(|| "1010101010"),
        Box::new(|| "that was, but more than 8 bits"),
        Box::new(|| "101010"),
        Box::new(|| "that one should work!"),
        Box::new(|| panic!("lazy evaluation!")),
    ]);
    let checks = inputs.fmap(|x: Box<dyn FnOnce() -> &'static str>| {
        move || u8::from_str_radix(x(), 2).ok()
    });
    assert_eq!(asum(checks), Some(42));
}

#[test]
fn first_valid_int_vec() {
    let checks: Vec<_> = vec![
        || "this string isn't a number",
        || "67",
        || "that was, but not binary",
        || "1010101010",
        || "that was, but more than 8 bits",
        || "101010",
        || "that one should work!",
        || panic!("lazy evaluation!"),
    ]
    .into_iter()
    .map(|x| move || u8::from_str_radix(x(), 2).ok())
    .collect();
    assert_eq!(asum(checks), Some(42));
}

#[test]
fn is_power_of_two() {
    assert_eq!(
        List::from_vec(vec![0, 1, 2, 3, 4, 5]).fmap(u8::is_power_of_two),
        List::from_vec(vec![false, true, true, false, true, false])
    );
}

fn guard_list(b: bool) -> List<()> {
    List::from_vec(if b { vec![()] } else { vec![] })
}

#[test]
fn pythagoraean_triples() {
    let triples = List::from_vec((1..20).collect::<Vec<u32>>()).bind(|x| {
        List::from_vec((x..20).collect::<Vec<u32>>()).bind(move |y| {
            List::from_vec((y..20).collect::<Vec<u32>>()).bind(move |z| {
                guard_list(x * x + y * y == z * z).bind(move |_| List::from_vec(vec![(x, y, z)]))
            })
        })
    });
    assert_eq!(
        triples,
        List::from_vec(vec![
            // Including "non-primitive" (i.e. multiples of smaller) triples
            (3, 4, 5),
            (5, 12, 13),
            (6, 8, 10),
            (8, 15, 17),
            (9, 12, 15)
        ])
    );
}
