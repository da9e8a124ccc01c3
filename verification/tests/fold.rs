//! Folds over containers of alternatives.

use rsmonad::list::List;

#[test]
fn test_list_lazy_asum() {
    let thunks: List<Box<dyn FnOnce() -> List<u8>>> = List::from_vec(vec![
        Box::new(|| List::from_vec(vec![1_u8, 2, 3])),
        Box::new(|| List::from_vec(vec![4])),
        Box::new(|| List::from_vec(vec![5, 6])),
    ]);
    assert_eq!(thunks.asum(), List::from_vec(vec![1, 2, 3, 4, 5, 6]));
}
